//! The text mesh format: lines, directives, face operands and the indices
//! they resolve to.
//!
//! A text is a sequence of lines. A line is a keyword, one space, and
//! operands separated by single spaces. `v` declares a position, `vn` a
//! normal, `f` a face over positions that were declared anywhere in the
//! text, counted from one. Every other line says nothing.

use crate::mesh::{all_below, is_flattening, turn_mesh_into_pure_vertex_list, CpuMesh, Vertex};
use crate::text::{find_byte, first_index, spans_cover, split, split_spans, Span};
use vstd::slice::slice_subrange;
use vstd::prelude::*;

verus! {

pub const NEWLINE: u8 = 10;

pub const CARRIAGE_RETURN: u8 = 13;

pub const SPACE: u8 = 32;

pub const PLUS: u8 = 43;

pub const SLASH: u8 = 47;

pub const DIGIT_ZERO: u8 = 48;

pub const DIGIT_NINE: u8 = 57;

pub const LETTER_F: u8 = 102;

pub const LETTER_N: u8 = 110;

pub const LETTER_V: u8 = 118;

/// What a line asks for.
#[derive(Clone, Copy, Debug, PartialEq, Eq, Structural)]
pub enum Directive {
    /// `v`: a position.
    Position,
    /// `vn`: a normal; it is recognised and not used.
    Normal,
    /// `f`: a face.
    Face,
    /// Anything else, and any line without a space.
    Ignored,
}

/// `line` without the carriage return that ends it, if one does.
pub open spec fn strip_cr(line: Seq<u8>) -> Seq<u8> {
    if line.len() > 0 && line.last() == CARRIAGE_RETURN {
        line.drop_last()
    } else {
        line
    }
}

/// The lines of `text`: what stands between line feeds. A line that a line
/// feed ends loses a carriage return before it; what follows the last line
/// feed is the last line as it stands, and may be empty.
pub open spec fn obj_lines(text: Seq<u8>) -> Seq<Seq<u8>> {
    let pieces = split(text, NEWLINE);
    Seq::new(
        pieces.len(),
        |i: int|
            if i + 1 < pieces.len() {
                strip_cr(pieces[i])
            } else {
                pieces[i]
            },
    )
}

/// The keyword of `line`: what stands before its first space.
pub open spec fn keyword(line: Seq<u8>) -> Seq<u8> {
    line.take(first_index(line, SPACE))
}

/// The operands of `line`: the pieces, between single spaces, of what
/// follows its first space.
pub open spec fn operands(line: Seq<u8>) -> Seq<Seq<u8>> {
    split(line.skip(first_index(line, SPACE) + 1), SPACE)
}

/// The directive that `line` holds.
pub open spec fn directive_of(line: Seq<u8>) -> Directive {
    if first_index(line, SPACE) >= line.len() {
        Directive::Ignored
    } else if keyword(line) == seq![LETTER_V] {
        Directive::Position
    } else if keyword(line) == seq![LETTER_V, LETTER_N] {
        Directive::Normal
    } else if keyword(line) == seq![LETTER_F] {
        Directive::Face
    } else {
        Directive::Ignored
    }
}

/// Every byte of `s` is a decimal digit.
pub open spec fn all_digits(s: Seq<u8>) -> bool {
    forall|i: int| 0 <= i < s.len() ==> DIGIT_ZERO <= #[trigger] s[i] <= DIGIT_NINE
}

/// The number that the decimal digits `s` write.
pub open spec fn digits_value(s: Seq<u8>) -> nat
    decreases s.len(),
{
    if s.len() == 0 {
        0
    } else {
        (digits_value(s.drop_last()) * 10 + (s.last() - DIGIT_ZERO)) as nat
    }
}

/// `token` without the plus sign that may lead it.
pub open spec fn unsigned_part(token: Seq<u8>) -> Seq<u8> {
    if token.len() > 0 && token[0] == PLUS {
        token.skip(1)
    } else {
        token
    }
}

/// The position that `token` names, counted from zero: `token` is a decimal
/// number from one up to the largest `usize`, with or without a leading plus
/// sign, and the position is that number less one. Any other token names
/// none.
pub open spec fn index_of_token(token: Seq<u8>) -> Option<usize> {
    let digits = unsigned_part(token);
    if digits.len() > 0 && all_digits(digits) && 1 <= digits_value(digits) <= usize::MAX {
        Some((digits_value(digits) - 1) as usize)
    } else {
        None
    }
}

/// The position that a face operand names: that of what stands before its
/// first slash, or of the whole operand where it has none.
pub open spec fn operand_index(operand: Seq<u8>) -> Option<usize> {
    index_of_token(operand.take(first_index(operand, SLASH)))
}

/// The positions that the operands name, in order; an operand that names
/// none is passed over.
pub open spec fn resolved_indices(ops: Seq<Seq<u8>>) -> Seq<usize>
    decreases ops.len(),
{
    if ops.len() == 0 {
        Seq::empty()
    } else {
        match operand_index(ops.last()) {
            Some(i) => resolved_indices(ops.drop_last()).push(i),
            None => resolved_indices(ops.drop_last()),
        }
    }
}

/// The triangles of a face, three indices each: a face of three corners is
/// one triangle; one of four corners `a b c d` is the triangles `a b c` and
/// `c d a`; any other face has none.
pub open spec fn triangulate(face: Seq<usize>) -> Seq<usize> {
    if face.len() == 3 {
        face
    } else if face.len() == 4 {
        seq![face[0], face[1], face[2], face[2], face[3], face[0]]
    } else {
        Seq::empty()
    }
}

/// The indices that `line` adds to a mesh.
pub open spec fn line_indices(line: Seq<u8>) -> Seq<usize> {
    if directive_of(line) == Directive::Face {
        triangulate(resolved_indices(operands(line)))
    } else {
        Seq::empty()
    }
}

/// The indices of the mesh that `lines` describe: those of each line, in
/// the order of the lines.
pub open spec fn mesh_indices(lines: Seq<Seq<u8>>) -> Seq<usize>
    decreases lines.len(),
{
    if lines.len() == 0 {
        Seq::empty()
    } else {
        mesh_indices(lines.drop_last()) + line_indices(lines.last())
    }
}

/// The lines of `lines` that declare a position, in order.
pub open spec fn position_lines(lines: Seq<Seq<u8>>) -> Seq<Seq<u8>>
    decreases lines.len(),
{
    if lines.len() == 0 {
        Seq::empty()
    } else if directive_of(lines.last()) == Directive::Position {
        position_lines(lines.drop_last()).push(lines.last())
    } else {
        position_lines(lines.drop_last())
    }
}

/// The operand of the position line `line` that gives coordinate `axis`
/// (0, 1 or 2), where the line has that many operands.
pub open spec fn coordinate_operand(line: Seq<u8>, axis: int) -> Option<Seq<u8>> {
    if 0 <= axis < operands(line).len() {
        Some(operands(line)[axis])
    } else {
        None
    }
}

/// The value of a prefix of digits is at most that of the whole.
pub proof fn lemma_digits_value_monotone(s: Seq<u8>, j: int)
    requires
        0 <= j <= s.len(),
        all_digits(s),
    ensures
        digits_value(s.take(j)) <= digits_value(s),
    decreases s.len(),
{
    if j < s.len() {
        let front = s.drop_last();
        assert(front.take(j) == s.take(j));
        lemma_digits_value_monotone(front, j);
    } else {
        assert(s.take(j) == s);
    }
}

/// Reads the position that `text[span]` names: see `index_of_token`.
pub fn parse_index(text: &[u8], span: Span) -> (index: Option<usize>)
    requires
        span.within(text@.len()),
    ensures
        index == index_of_token(span.of(text@)),
{
    let ghost token = span.of(text@);
    let mut at: usize = span.start;
    if at < span.end && text[at] == PLUS {
        at = at + 1;
    }
    let first: usize = at;
    let ghost digits = text@.subrange(first as int, span.end as int);
    proof {
        assert(digits == unsigned_part(token));
    }
    if at == span.end {
        return None;
    }
    let mut value: usize = 0;
    while at < span.end
        invariant
            span.within(text@.len()),
            span.start <= first <= at <= span.end,
            digits == text@.subrange(first as int, span.end as int),
            digits == unsigned_part(span.of(text@)),
            all_digits(digits.take(at - first)),
            value == digits_value(digits.take(at - first)),
        decreases span.end - at,
    {
        let byte = text[at];
        let ghost seen = digits.take(at - first + 1);
        proof {
            assert(seen.drop_last() == digits.take(at - first));
            assert(seen.last() == byte);
        }
        if byte < DIGIT_ZERO || byte > DIGIT_NINE {
            proof {
                assert(digits[at - first] == byte);
                assert(!all_digits(digits));
            }
            return None;
        }
        let scaled = match value.checked_mul(10) {
            Some(v) => v,
            None => {
                proof {
                    assert(digits_value(seen) == value * 10 + (byte - DIGIT_ZERO));
                    if all_digits(digits) {
                        lemma_digits_value_monotone(digits, at - first + 1);
                    }
                }
                return None;
            },
        };
        let next = match scaled.checked_add((byte - DIGIT_ZERO) as usize) {
            Some(v) => v,
            None => {
                proof {
                    assert(digits_value(seen) == value * 10 + (byte - DIGIT_ZERO));
                    if all_digits(digits) {
                        lemma_digits_value_monotone(digits, at - first + 1);
                    }
                }
                return None;
            },
        };
        value = next;
        at = at + 1;
    }
    proof {
        assert(digits.take(at - first) == digits);
    }
    if value == 0 {
        None
    } else {
        Some(value - 1)
    }
}

/// Reads the position that the face operand `text[span]` names.
pub fn parse_face_operand(text: &[u8], span: Span) -> (index: Option<usize>)
    requires
        span.within(text@.len()),
    ensures
        index == operand_index(span.of(text@)),
{
    let slash = find_byte(text, span.start, span.end, SLASH);
    proof {
        let operand = span.of(text@);
        assert(operand.take(slash - span.start) == text@.subrange(
            span.start as int,
            slash as int,
        ));
    }
    parse_index(text, Span { start: span.start, end: slash })
}

/// Appends to `indices` the triangles of the face `face`.
pub fn push_triangles(indices: &mut Vec<usize>, face: &Vec<usize>)
    ensures
        final(indices)@ == old(indices)@ + triangulate(face@),
{
    if face.len() == 3 {
        indices.push(face[0]);
        indices.push(face[1]);
        indices.push(face[2]);
        assert(indices@ =~= old(indices)@ + triangulate(face@));
    } else if face.len() == 4 {
        indices.push(face[0]);
        indices.push(face[1]);
        indices.push(face[2]);
        indices.push(face[2]);
        indices.push(face[3]);
        indices.push(face[0]);
        assert(indices@ =~= old(indices)@ + triangulate(face@));
    } else {
        assert(indices@ =~= old(indices)@ + triangulate(face@));
    }
}

/// `c` is what `scalar` makes of a coordinate's operand: the value it reads
/// from the operand's bytes, or `zero` where it reads none or where the line
/// has no such operand.
pub open spec fn coordinate_read<C, F: Fn(&[u8]) -> Option<C>>(
    scalar: F,
    zero: C,
    operand: Option<Seq<u8>>,
    c: C,
) -> bool {
    match operand {
        None => c == zero,
        Some(bytes) => exists|token: &[u8]|
            (#[trigger] token@) == bytes && (call_ensures(scalar, (token,), Some(c)) || (
            call_ensures(scalar, (token,), None::<C>) && c == zero)),
    }
}

/// `p` is the position that the line `line` declares: its first three
/// operands, read by `scalar`. Operands after the third are not read.
pub open spec fn position_read<C, F: Fn(&[u8]) -> Option<C>>(
    scalar: F,
    zero: C,
    line: Seq<u8>,
    p: [C; 3],
) -> bool {
    &&& coordinate_read(scalar, zero, coordinate_operand(line, 0), p[0])
    &&& coordinate_read(scalar, zero, coordinate_operand(line, 1), p[1])
    &&& coordinate_read(scalar, zero, coordinate_operand(line, 2), p[2])
}

/// Reads coordinate `axis` of a position line whose operands are `ops`.
fn read_coordinate<C: Copy, F: Fn(&[u8]) -> Option<C>>(
    text: &[u8],
    ops: &Vec<Span>,
    axis: usize,
    zero: C,
    scalar: &F,
    Ghost(line): Ghost<Seq<u8>>,
) -> (c: C)
    requires
        forall|token: &[u8]| call_requires(*scalar, (token,)),
        spans_cover(text@, ops@, operands(line)),
    ensures
        coordinate_read(*scalar, zero, coordinate_operand(line, axis as int), c),
{
    if axis < ops.len() {
        let span = ops[axis];
        let token = slice_subrange(text, span.start, span.end);
        assert(token@ == operands(line)[axis as int]);
        match scalar(token) {
            Some(c) => c,
            None => zero,
        }
    } else {
        zero
    }
}

/// `mesh` is what the text `text` describes, its coordinates read by
/// `scalar`: the indices of its faces, and one position for each position
/// line, in the order of the lines.
pub open spec fn is_parse_of<C, F: Fn(&[u8]) -> Option<C>>(
    text: Seq<u8>,
    zero: C,
    scalar: F,
    mesh: CpuMesh<[C; 3]>,
) -> bool {
    &&& mesh.indices@ == mesh_indices(obj_lines(text))
    &&& mesh.vertices@.len() == position_lines(obj_lines(text)).len()
    &&& forall|k: int|
        0 <= k < mesh.vertices@.len() ==> position_read(
            scalar,
            zero,
            position_lines(obj_lines(text))[k],
            #[trigger] mesh.vertices@[k],
        )
}

/// Reads the positions that the operands `ops` of a face line name.
fn resolve_face(text: &[u8], ops: &Vec<Span>, Ghost(pieces): Ghost<Seq<Seq<u8>>>) -> (face: Vec<
    usize,
>)
    requires
        spans_cover(text@, ops@, pieces),
    ensures
        face@ == resolved_indices(pieces),
{
    let mut face: Vec<usize> = Vec::new();
    let mut i: usize = 0;
    while i < ops.len()
        invariant
            i <= ops@.len(),
            spans_cover(text@, ops@, pieces),
            face@ == resolved_indices(pieces.take(i as int)),
        decreases ops@.len() - i,
    {
        proof {
            assert(pieces.take(i + 1).drop_last() == pieces.take(i as int));
            assert(pieces.take(i + 1).last() == pieces[i as int]);
        }
        match parse_face_operand(text, ops[i]) {
            Some(index) => {
                face.push(index);
            },
            None => {},
        }
        i = i + 1;
    }
    proof {
        assert(pieces.take(i as int) == pieces);
    }
    face
}

/// The span of line `j` among the pieces `pieces` of a text: every piece but
/// the last loses the carriage return that ends it.
fn line_span(text: &[u8], pieces: &Vec<Span>, j: usize) -> (line: Span)
    requires
        j < pieces@.len(),
        spans_cover(text@, pieces@, split(text@, NEWLINE)),
    ensures
        line.within(text@.len()),
        line.of(text@) == obj_lines(text@)[j as int],
{
    let raw = pieces[j];
    if j < pieces.len() - 1 && raw.start < raw.end && text[raw.end - 1] == CARRIAGE_RETURN {
        let line = Span { start: raw.start, end: raw.end - 1 };
        proof {
            assert(line.of(text@) == raw.of(text@).drop_last());
        }
        line
    } else {
        raw
    }
}

/// Reads a mesh from `text`, line by line. A `v` line adds a position, whose
/// coordinates `scalar` reads from the line's first three operands; `zero`
/// stands for a coordinate that is missing or that `scalar` cannot read. An
/// `f` line of three or four operands that name a position adds one or two
/// triangles; any other `f` line adds nothing. The rest is passed over.
/// Faces are not held against the positions; where each of their operands
/// names a position that the text declares, every index of the mesh does.
pub fn parse_obj_file<C: Copy, F: Fn(&[u8]) -> Option<C>>(text: &[u8], zero: C, scalar: F) -> (mesh:
    CpuMesh<[C; 3]>)
    requires
        forall|token: &[u8]| call_requires(scalar, (token,)),
    ensures
        is_parse_of(text@, zero, scalar, mesh),
        mesh.indices@.len() % 3 == 0,
        faces_reference_positions(obj_lines(text@)) ==> mesh.indices_in_range(),
{
    let mut vertices: Vec<[C; 3]> = Vec::new();
    let mut indices: Vec<usize> = Vec::new();
    proof {
        assert(text@.subrange(0, text@.len() as int) == text@);
    }
    let pieces = split_spans(text, 0, text.len(), NEWLINE);
    let ghost lines = obj_lines(text@);
    let mut j: usize = 0;
    while j < pieces.len()
        invariant
            j <= pieces@.len(),
            lines == obj_lines(text@),
            lines.len() == pieces@.len(),
            spans_cover(text@, pieces@, split(text@, NEWLINE)),
            forall|token: &[u8]| call_requires(scalar, (token,)),
            indices@ == mesh_indices(lines.take(j as int)),
            vertices@.len() == position_lines(lines.take(j as int)).len(),
            forall|k: int|
                0 <= k < vertices@.len() ==> position_read(
                    scalar,
                    zero,
                    position_lines(lines.take(j as int))[k],
                    #[trigger] vertices@[k],
                ),
        decreases pieces@.len() - j,
    {
        let line = line_span(text, &pieces, j);
        let ghost bytes = lines[j as int];
        proof {
            assert(lines.take(j + 1).drop_last() == lines.take(j as int));
            assert(lines.take(j + 1).last() == bytes);
        }
        let space = find_byte(text, line.start, line.end, SPACE);
        if space < line.end {
            proof {
                assert(keyword(bytes) == text@.subrange(line.start as int, space as int));
                assert(bytes.skip(space - line.start + 1) == text@.subrange(
                    space + 1,
                    line.end as int,
                ));
            }
            let is_v = space - line.start == 1 && text[line.start] == LETTER_V;
            let is_f = space - line.start == 1 && text[line.start] == LETTER_F;
            proof {
                assert(is_v <==> keyword(bytes) =~= seq![LETTER_V]);
                assert(is_f <==> keyword(bytes) =~= seq![LETTER_F]);
                if is_f {
                    assert(keyword(bytes) != seq![LETTER_V, LETTER_N]);
                }
            }
            if is_v {
                let ops = split_spans(text, space + 1, line.end, SPACE);
                let x = read_coordinate(text, &ops, 0, zero, &scalar, Ghost(bytes));
                let y = read_coordinate(text, &ops, 1, zero, &scalar, Ghost(bytes));
                let z = read_coordinate(text, &ops, 2, zero, &scalar, Ghost(bytes));
                let position = [x, y, z];
                vertices.push(position);
                proof {
                    assert(position_read(scalar, zero, bytes, position));
                }
            } else if is_f {
                let ops = split_spans(text, space + 1, line.end, SPACE);
                let face = resolve_face(text, &ops, Ghost(operands(bytes)));
                push_triangles(&mut indices, &face);
            }
        }
        j = j + 1;
    }
    proof {
        assert(lines.take(j as int) == lines);
        lemma_whole_triangles(lines);
        if faces_reference_positions(lines) {
            lemma_indices_in_range(lines);
        }
    }
    CpuMesh { vertices, indices }
}

/// `out` is a flat triangle list, under `face_normal`, of a mesh that `text`
/// describes with its coordinates read by `scalar`.
pub open spec fn is_load_of<C, F: Fn(&[u8]) -> Option<C>, N: Fn([C; 3], [C; 3], [C; 3]) -> [C; 3]>(
    text: Seq<u8>,
    zero: C,
    scalar: F,
    face_normal: N,
    out: Seq<Vertex<[C; 3]>>,
) -> bool {
    exists|mesh: CpuMesh<[C; 3]>|
        is_parse_of(text, zero, scalar, mesh) && #[trigger] is_flattening(mesh, face_normal, out)
}

/// Reads a mesh from `text` and expands it into a flat triangle list, where
/// every face refers to a position that the text declares; `None` where one
/// does not.
pub fn load_sponza<C: Copy, F: Fn(&[u8]) -> Option<C>, N: Fn([C; 3], [C; 3], [C; 3]) -> [C; 3]>(
    text: &[u8],
    zero: C,
    scalar: F,
    face_normal: N,
) -> (vertices: Option<Vec<Vertex<[C; 3]>>>)
    requires
        forall|token: &[u8]| call_requires(scalar, (token,)),
        forall|a: [C; 3], b: [C; 3], c: [C; 3]| call_requires(face_normal, (a, b, c)),
    ensures
        vertices is Some <==> all_below(
            mesh_indices(obj_lines(text@)),
            position_lines(obj_lines(text@)).len(),
        ),
        match vertices {
            Some(out) => is_load_of(text@, zero, scalar, face_normal, out@),
            None => true,
        },
{
    let mesh = parse_obj_file(text, zero, scalar);
    if mesh.check_indices() {
        let ghost parsed = mesh;
        let out = turn_mesh_into_pure_vertex_list(mesh, face_normal);
        proof {
            assert(is_parse_of(text@, zero, scalar, parsed));
            assert(is_flattening(parsed, face_normal, out@));
        }
        Some(out)
    } else {
        None
    }
}

/// Every face operand of `lines` that names a position names one that
/// `lines` declare.
pub open spec fn faces_reference_positions(lines: Seq<Seq<u8>>) -> bool {
    forall|i: int, j: int|
        0 <= i < lines.len() && directive_of(lines[i]) == Directive::Face && 0 <= j < operands(
            lines[i],
        ).len() ==> match #[trigger] operand_index(operands(lines[i])[j]) {
            Some(index) => index < position_lines(lines).len(),
            None => true,
        }
}

/// Each resolved index is what one of the operands names.
pub proof fn lemma_resolved_from_operands(ops: Seq<Seq<u8>>, k: int) -> (j: int)
    requires
        0 <= k < resolved_indices(ops).len(),
    ensures
        0 <= j < ops.len(),
        operand_index(ops[j]) == Some(resolved_indices(ops)[k]),
    decreases ops.len(),
{
    let front = ops.drop_last();
    match operand_index(ops.last()) {
        Some(i) => {
            if k == resolved_indices(front).len() {
                ops.len() - 1
            } else {
                lemma_resolved_from_operands(front, k)
            }
        },
        None => lemma_resolved_from_operands(front, k),
    }
}

/// The indices of two runs of lines, one after the other, are the indices of
/// the first followed by those of the second; likewise their position lines.
pub proof fn lemma_lines_concat(first: Seq<Seq<u8>>, second: Seq<Seq<u8>>)
    ensures
        mesh_indices(first + second) == mesh_indices(first) + mesh_indices(second),
        position_lines(first + second) == position_lines(first) + position_lines(second),
    decreases second.len(),
{
    if second.len() == 0 {
        assert(first + second == first);
    } else {
        let front = second.drop_last();
        assert((first + second).drop_last() == first + front);
        assert((first + second).last() == second.last());
        lemma_lines_concat(first, front);
    }
}

/// A parsed mesh is made of whole triangles: the number of its indices is a
/// multiple of three.
pub proof fn lemma_whole_triangles(lines: Seq<Seq<u8>>)
    ensures
        mesh_indices(lines).len() % 3 == 0,
    decreases lines.len(),
{
    if lines.len() > 0 {
        lemma_whole_triangles(lines.drop_last());
    }
}

/// Where every face operand names a declared position, every index of the
/// parsed mesh lies below the number of its positions.
pub proof fn lemma_indices_in_range(lines: Seq<Seq<u8>>)
    requires
        faces_reference_positions(lines),
    ensures
        all_below(mesh_indices(lines), position_lines(lines).len()),
{
    lemma_prefix_indices_in_range(lines, lines.len() as int);
    assert(lines.take(lines.len() as int) == lines);
}

proof fn lemma_prefix_indices_in_range(lines: Seq<Seq<u8>>, n: int)
    requires
        faces_reference_positions(lines),
        0 <= n <= lines.len(),
    ensures
        all_below(mesh_indices(lines.take(n)), position_lines(lines).len()),
    decreases n,
{
    if n > 0 {
        lemma_prefix_indices_in_range(lines, n - 1);
        let prefix = lines.take(n);
        let line = lines[n - 1];
        assert(prefix.drop_last() == lines.take(n - 1));
        assert(prefix.last() == line);
        let added = line_indices(line);
        let count = position_lines(lines).len();
        assert forall|k: int| 0 <= k < added.len() implies added[k] < count by {
            let face = resolved_indices(operands(line));
            let m = choose|m: int| 0 <= m < face.len() && face[m] == added[k];
            let j = lemma_resolved_from_operands(operands(line), m);
            assert(operand_index(operands(lines[n - 1])[j]) == Some(added[k]));
        }
    }
}

/// A face of four resolved operands `a b c d` adds the triangles `a b c` and
/// `c d a`, in that order: six indices.
pub proof fn lemma_quad_face(
    lines: Seq<Seq<u8>>,
    line: Seq<u8>,
    a: usize,
    b: usize,
    c: usize,
    d: usize,
)
    requires
        directive_of(line) == Directive::Face,
        resolved_indices(operands(line)) == seq![a, b, c, d],
    ensures
        mesh_indices(lines.push(line)) == mesh_indices(lines) + seq![a, b, c, c, d, a],
        mesh_indices(lines.push(line)).len() == mesh_indices(lines).len() + 6,
{
    assert(lines.push(line).drop_last() == lines);
    assert(triangulate(seq![a, b, c, d]) == seq![a, b, c, c, d, a]);
}

/// A face of three resolved operands `a b c` adds the triangle `a b c`.
pub proof fn lemma_triangle_face(lines: Seq<Seq<u8>>, line: Seq<u8>, a: usize, b: usize, c: usize)
    requires
        directive_of(line) == Directive::Face,
        resolved_indices(operands(line)) == seq![a, b, c],
    ensures
        mesh_indices(lines.push(line)) == mesh_indices(lines) + seq![a, b, c],
{
    assert(lines.push(line).drop_last() == lines);
}

/// A face whose resolved operands are neither three nor four adds no
/// triangle, and the lines around it count as if it were not there.
pub proof fn lemma_malformed_face_skipped(before: Seq<Seq<u8>>, line: Seq<u8>, after: Seq<Seq<u8>>)
    requires
        directive_of(line) == Directive::Face,
        resolved_indices(operands(line)).len() != 3,
        resolved_indices(operands(line)).len() != 4,
    ensures
        line_indices(line) == Seq::<usize>::empty(),
        mesh_indices(before.push(line) + after) == mesh_indices(before + after),
        position_lines(before.push(line) + after) == position_lines(before + after),
{
    assert(before.push(line).drop_last() == before);
    lemma_lines_concat(before.push(line), after);
    lemma_lines_concat(before, after);
    assert(mesh_indices(before) + Seq::<usize>::empty() == mesh_indices(before));
}

/// A flat list of a parsed mesh holds one vertex for each index of the mesh:
/// three for each face of three operands, six for each face of four.
pub proof fn lemma_flat_length<P, F: Fn(P, P, P) -> P>(
    lines: Seq<Seq<u8>>,
    mesh: CpuMesh<P>,
    face_normal: F,
    out: Seq<Vertex<P>>,
)
    requires
        mesh.indices@ == mesh_indices(lines),
        is_flattening(mesh, face_normal, out),
    ensures
        out.len() == mesh_indices(lines).len(),
{
    lemma_whole_triangles(lines);
}

/// An empty text describes the empty mesh: no position and no face.
pub proof fn lemma_empty_text()
    ensures
        mesh_indices(obj_lines(Seq::empty())) == Seq::<usize>::empty(),
        position_lines(obj_lines(Seq::empty())) == Seq::<Seq<u8>>::empty(),
{
    let text = Seq::<u8>::empty();
    let lines = obj_lines(text);
    assert(split(text, NEWLINE) == seq![text]);
    assert(lines.len() == 1);
    assert(lines[0] == text);
    assert(lines.drop_last() =~= Seq::<Seq<u8>>::empty());
    assert(lines.last() == text);
    assert(directive_of(text) == Directive::Ignored);
    assert(mesh_indices(lines.drop_last()) == Seq::<usize>::empty());
    assert(mesh_indices(lines) =~= Seq::<usize>::empty());
    assert(position_lines(lines.drop_last()) == Seq::<Seq<u8>>::empty());
    assert(position_lines(lines) =~= Seq::<Seq<u8>>::empty());
}

} // verus!
