//! Shader source assembly.
//!
//! A shader file is read line by line. A line that starts with the directive
//! marker names one or more double-quoted paths, relative to the directory of
//! the file that holds the line; the line is replaced by the full contents of
//! each named file, in order. Every other line is copied with a newline after
//! it. Reading files is left to the caller: `parse_source` turns one file's
//! bytes into items, `import_paths` lists the files it needs, and `assemble`
//! splices their expanded contents back in.

use vstd::prelude::*;
use vstd::slice::{slice_subrange, slice_to_vec};

verus! {

/// Line feed.
pub const NEWLINE: u8 = 10;

/// Carriage return, dropped before a line feed.
pub const CARRIAGE_RETURN: u8 = 13;

/// Double quote, which delimits the paths of a directive.
pub const QUOTE: u8 = 34;

/// Bytes that open a directive line: `//!` followed by the directive's name.
pub const DIRECTIVE_MARKER: [u8; 10] = [47, 47, 33, 105, 110, 99, 108, 117, 100, 101];

/// `s` cut at every `sep`; a string without `sep` gives one piece.
pub open spec fn split_on(s: Seq<u8>, sep: u8) -> Seq<Seq<u8>>
    decreases s.len(),
{
    if s.len() == 0 {
        seq![Seq::empty()]
    } else {
        let p = split_on(s.drop_last(), sep);
        if s.last() == sep {
            p.push(Seq::empty())
        } else {
            p.update(p.len() - 1, p.last().push(s.last()))
        }
    }
}

/// `line` without one trailing carriage return.
pub open spec fn strip_cr(line: Seq<u8>) -> Seq<u8> {
    if line.len() > 0 && line.last() == CARRIAGE_RETURN {
        line.drop_last()
    } else {
        line
    }
}

/// The lines of `text`: cut at each line feed, each line that ended in a line
/// feed loses a carriage return before it, and no empty line is made after a
/// final line feed.
pub open spec fn lines_of(text: Seq<u8>) -> Seq<Seq<u8>> {
    let p = split_on(text, NEWLINE);
    let ended = p.drop_last().map_values(|l: Seq<u8>| strip_cr(l));
    if p.last().len() == 0 {
        ended
    } else {
        ended.push(p.last())
    }
}

/// The directive marker as a sequence.
pub open spec fn marker() -> Seq<u8> {
    seq![47u8, 47u8, 33u8, 105u8, 110u8, 99u8, 108u8, 117u8, 100u8, 101u8]
}

/// `line` opens with the directive marker.
pub open spec fn is_directive(line: Seq<u8>) -> bool {
    line.len() >= marker().len() && line.subrange(0, marker().len() as int) == marker()
}

/// A directive line whose last quoted path is never closed.
pub open spec fn is_unterminated(line: Seq<u8>) -> bool {
    is_directive(line) && split_on(line, QUOTE).len() % 2 == 0
}

/// The quoted paths of a directive line: every second piece between quotes.
pub open spec fn quoted_paths(line: Seq<u8>) -> Seq<Seq<u8>> {
    let p = split_on(line, QUOTE);
    Seq::new(((p.len() - 1) / 2) as nat, |k: int| p[2 * k + 1])
}

/// Why a shader source could not be assembled.
#[derive(Clone, Copy, Debug, PartialEq, Eq, Structural)]
pub enum ShaderError {
    /// A file, or the directory that holds it, could not be read.
    Io,
    /// The directive on the line with this index (counted from zero) leaves a
    /// quoted path open.
    Unterminated { line: usize },
}

/// The line with index `line` is the first unterminated directive of `lines`.
pub open spec fn first_unterminated(lines: Seq<Seq<u8>>, line: int) -> bool {
    &&& 0 <= line < lines.len()
    &&& is_unterminated(lines[line])
    &&& forall|i: int| 0 <= i < line ==> !is_unterminated(#[trigger] lines[i])
}

/// One item of a parsed file: a line copied as it is, or a file spliced in.
#[derive(Debug, PartialEq, Eq)]
pub enum SourceItem {
    Text(Vec<u8>),
    Import(Vec<u8>),
}

pub enum SourceItemView {
    Text(Seq<u8>),
    Import(Seq<u8>),
}

impl View for SourceItem {
    type V = SourceItemView;

    open spec fn view(&self) -> SourceItemView {
        match self {
            SourceItem::Text(l) => SourceItemView::Text(l@),
            SourceItem::Import(p) => SourceItemView::Import(p@),
        }
    }
}

/// Views of a sequence of items.
pub open spec fn items_view(items: Seq<SourceItem>) -> Seq<SourceItemView> {
    items.map_values(|i: SourceItem| i@)
}

/// Items that one line gives.
pub open spec fn items_of_line(line: Seq<u8>) -> Seq<SourceItemView> {
    if is_directive(line) {
        quoted_paths(line).map_values(|p: Seq<u8>| SourceItemView::Import(p))
    } else {
        seq![SourceItemView::Text(line)]
    }
}

/// Items that a sequence of lines gives, in order.
pub open spec fn items_of_lines(lines: Seq<Seq<u8>>) -> Seq<SourceItemView>
    decreases lines.len(),
{
    if lines.len() == 0 {
        Seq::empty()
    } else {
        items_of_lines(lines.drop_last()) + items_of_line(lines.last())
    }
}

/// Paths of the files that `items` splice in, in order.
pub open spec fn imports_of(items: Seq<SourceItemView>) -> Seq<Seq<u8>>
    decreases items.len(),
{
    if items.len() == 0 {
        Seq::empty()
    } else {
        match items.last() {
            SourceItemView::Text(_) => imports_of(items.drop_last()),
            SourceItemView::Import(p) => imports_of(items.drop_last()).push(p),
        }
    }
}

/// Output of `items` when the k-th spliced file expands to `parts[k]`.
pub open spec fn assembled(items: Seq<SourceItemView>, parts: Seq<Seq<u8>>) -> Seq<u8>
    decreases items.len(),
{
    if items.len() == 0 {
        Seq::empty()
    } else {
        match items.last() {
            SourceItemView::Text(l) => assembled(items.drop_last(), parts) + l.push(NEWLINE),
            SourceItemView::Import(_) => assembled(items.drop_last(), parts.drop_last())
                + parts.last(),
        }
    }
}

/// Contents of a sequence of byte vectors.
pub open spec fn byte_views(v: Seq<Vec<u8>>) -> Seq<Seq<u8>> {
    v.map_values(|x: Vec<u8>| x@)
}

pub proof fn lemma_split_nonempty(s: Seq<u8>, sep: u8)
    ensures
        split_on(s, sep).len() >= 1,
    decreases s.len(),
{
    if s.len() > 0 {
        lemma_split_nonempty(s.drop_last(), sep);
    }
}

/// Cuts `s` at every `sep`.
pub fn split_bytes(s: &[u8], sep: u8) -> (r: Vec<Vec<u8>>)
    ensures
        byte_views(r@) == split_on(s@, sep),
{
    let mut done: Vec<Vec<u8>> = Vec::new();
    let mut cur: Vec<u8> = Vec::new();
    let mut i: usize = 0;
    while i < s.len()
        invariant
            i <= s@.len(),
            byte_views(done@).push(cur@) == split_on(s@.subrange(0, i as int), sep),
        decreases s@.len() - i,
    {
        let c = s[i];
        let ghost prev = byte_views(done@);
        let ghost before = cur@;
        proof {
            let t = s@.subrange(0, i as int + 1);
            assert(t.drop_last() =~= s@.subrange(0, i as int));
            assert(t.last() == c);
        }
        if c == sep {
            done.push(cur);
            cur = Vec::new();
            proof {
                assert(byte_views(done@) =~= prev.push(before));
                assert(cur@ =~= Seq::<u8>::empty());
            }
        } else {
            cur.push(c);
            proof {
                assert(prev.push(before).update(prev.len() as int, before.push(c)) =~= prev.push(
                    cur@,
                ));
            }
        }
        i = i + 1;
    }
    proof {
        assert(s@.subrange(0, s@.len() as int) =~= s@);
    }
    let ghost prev = byte_views(done@);
    let ghost last = cur@;
    done.push(cur);
    proof {
        assert(byte_views(done@) =~= prev.push(last));
    }
    done
}

/// `line` without one trailing carriage return.
fn strip_cr_bytes(line: &[u8]) -> (r: Vec<u8>)
    ensures
        r@ == strip_cr(line@),
{
    let n = line.len();
    if n > 0 && line[n - 1] == CARRIAGE_RETURN {
        let r = slice_to_vec(slice_subrange(line, 0, n - 1));
        proof {
            assert(r@ =~= line@.drop_last());
        }
        r
    } else {
        slice_to_vec(line)
    }
}

/// The lines of `text`, as a buffered reader yields them.
pub fn source_lines(text: &[u8]) -> (r: Vec<Vec<u8>>)
    ensures
        byte_views(r@) == lines_of(text@),
{
    let mut pieces = split_bytes(text, NEWLINE);
    proof {
        lemma_split_nonempty(text@, NEWLINE);
    }
    let ghost all = byte_views(pieces@);
    let last = match pieces.pop() {
        Some(l) => l,
        None => Vec::new(),
    };
    proof {
        assert(byte_views(pieces@) =~= all.drop_last());
    }
    let ghost ended = all.drop_last().map_values(|l: Seq<u8>| strip_cr(l));
    let mut lines: Vec<Vec<u8>> = Vec::new();
    let mut i: usize = 0;
    while i < pieces.len()
        invariant
            i <= pieces@.len(),
            all.len() >= 1,
            byte_views(pieces@) == all.drop_last(),
            ended == all.drop_last().map_values(|l: Seq<u8>| strip_cr(l)),
            byte_views(lines@) == ended.subrange(0, i as int),
        decreases pieces@.len() - i,
    {
        let l = strip_cr_bytes(pieces[i].as_slice());
        let ghost before = byte_views(lines@);
        proof {
            assert(pieces@[i as int]@ == all.drop_last()[i as int]);
            assert(l@ == ended[i as int]);
        }
        lines.push(l);
        proof {
            assert(byte_views(lines@) =~= before.push(l@));
        }
        i = i + 1;
        proof {
            assert(byte_views(lines@) =~= ended.subrange(0, i as int));
        }
    }
    proof {
        assert(ended.subrange(0, i as int) =~= ended);
    }
    if last.len() > 0 {
        let ghost before = byte_views(lines@);
        lines.push(last);
        proof {
            assert(byte_views(lines@) =~= before.push(all.last()));
        }
    }
    lines
}

/// Whether `line` opens with the directive marker.
pub fn is_directive_line(line: &[u8]) -> (r: bool)
    ensures
        r == is_directive(line@),
{
    let m = DIRECTIVE_MARKER;
    proof {
        assert(m@ =~= marker());
    }
    if line.len() < 10 {
        return false;
    }
    let mut i: usize = 0;
    while i < 10
        invariant
            i <= 10,
            line@.len() >= 10,
            m@ == marker(),
            forall|j: int| 0 <= j < i ==> line@[j] == marker()[j],
        decreases 10 - i,
    {
        if line[i] != m[i] {
            proof {
                assert(line@.subrange(0, 10)[i as int] != marker()[i as int]);
            }
            return false;
        }
        i = i + 1;
    }
    proof {
        assert(line@.subrange(0, 10) =~= marker());
    }
    true
}

/// Splits one file's bytes into the lines it copies and the files it splices
/// in. Fails on the first directive that leaves a quoted path open.
pub fn parse_source(text: &[u8]) -> (r: Result<Vec<SourceItem>, ShaderError>)
    ensures
        match r {
            Ok(items) => {
                &&& forall|i: int|
                    0 <= i < lines_of(text@).len() ==> !is_unterminated(
                        #[trigger] lines_of(text@)[i],
                    )
                &&& items_view(items@) == items_of_lines(lines_of(text@))
            },
            Err(ShaderError::Unterminated { line }) => first_unterminated(
                lines_of(text@),
                line as int,
            ),
            Err(ShaderError::Io) => false,
        },
{
    let lines = source_lines(text);
    let ghost ls = lines_of(text@);
    let mut items: Vec<SourceItem> = Vec::new();
    let mut j: usize = 0;
    while j < lines.len()
        invariant
            j <= lines@.len(),
            byte_views(lines@) == ls,
            ls == lines_of(text@),
            forall|i: int| 0 <= i < j ==> !is_unterminated(#[trigger] ls[i]),
            items_view(items@) == items_of_lines(ls.subrange(0, j as int)),
        decreases lines@.len() - j,
    {
        let line = lines[j].as_slice();
        let ghost base = items_view(items@);
        proof {
            assert(line@ == ls[j as int]);
            assert(ls.subrange(0, j as int + 1).drop_last() =~= ls.subrange(0, j as int));
        }
        if is_directive_line(line) {
            let pieces = split_bytes(line, QUOTE);
            if pieces.len() % 2 == 0 {
                return Err(ShaderError::Unterminated { line: j });
            }
            let ghost paths = quoted_paths(line@);
            let n: usize = pieces.len();
            let count = (n - 1) / 2;
            let mut m: usize = 0;
            while m < count
                invariant
                    m <= count,
                    count == paths.len(),
                    n == pieces@.len(),
                    n == 2 * count + 1,
                    byte_views(pieces@) == split_on(line@, QUOTE),
                    paths == quoted_paths(line@),
                    items_view(items@) == base + paths.subrange(0, m as int).map_values(
                        |p: Seq<u8>| SourceItemView::Import(p),
                    ),
                decreases count - m,
            {
                let path = slice_to_vec(pieces[2 * m + 1].as_slice());
                let ghost before = items_view(items@);
                proof {
                    assert(path@ == paths[m as int]);
                }
                items.push(SourceItem::Import(path));
                proof {
                    assert(items_view(items@) =~= before.push(SourceItemView::Import(paths[m as int])));
                }
                m = m + 1;
                proof {
                    assert(items_view(items@) =~= base + paths.subrange(0, m as int).map_values(
                        |p: Seq<u8>| SourceItemView::Import(p),
                    ));
                }
            }
            proof {
                assert(paths.subrange(0, m as int) =~= paths);
            }
        } else {
            items.push(SourceItem::Text(slice_to_vec(line)));
            proof {
                assert(items_view(items@) =~= base + seq![SourceItemView::Text(line@)]);
            }
        }
        j = j + 1;
    }
    proof {
        assert(ls.subrange(0, j as int) =~= ls);
    }
    Ok(items)
}

/// Appends `src` to `out`.
fn append_bytes(out: &mut Vec<u8>, src: &[u8])
    ensures
        final(out)@ == old(out)@ + src@,
{
    let ghost start = out@;
    let mut i: usize = 0;
    while i < src.len()
        invariant
            i <= src@.len(),
            out@ == start + src@.subrange(0, i as int),
        decreases src@.len() - i,
    {
        out.push(src[i]);
        i = i + 1;
        proof {
            assert(out@ =~= start + src@.subrange(0, i as int));
        }
    }
    proof {
        assert(src@.subrange(0, i as int) =~= src@);
    }
}

/// Paths of the files that `items` splice in, in the order they are needed.
pub fn import_paths(items: &Vec<SourceItem>) -> (r: Vec<Vec<u8>>)
    ensures
        byte_views(r@) == imports_of(items_view(items@)),
{
    let ghost iv = items_view(items@);
    let mut paths: Vec<Vec<u8>> = Vec::new();
    let mut i: usize = 0;
    while i < items.len()
        invariant
            i <= items@.len(),
            iv == items_view(items@),
            byte_views(paths@) == imports_of(iv.subrange(0, i as int)),
        decreases items@.len() - i,
    {
        proof {
            assert(iv.subrange(0, i as int + 1).drop_last() =~= iv.subrange(0, i as int));
        }
        match &items[i] {
            SourceItem::Text(_) => {},
            SourceItem::Import(p) => {
                let ghost before = byte_views(paths@);
                paths.push(slice_to_vec(p.as_slice()));
                proof {
                    assert(byte_views(paths@) =~= before.push(p@));
                }
            },
        }
        i = i + 1;
    }
    proof {
        assert(iv.subrange(0, i as int) =~= iv);
    }
    paths
}

/// A prefix of `items` splices in no more files than `items` does.
pub proof fn lemma_imports_prefix(items: Seq<SourceItemView>, i: int)
    requires
        0 <= i <= items.len(),
    ensures
        imports_of(items.subrange(0, i)).len() <= imports_of(items).len(),
    decreases items.len(),
{
    if i == items.len() {
        assert(items.subrange(0, i) =~= items);
    } else {
        lemma_imports_prefix(items.drop_last(), i);
        assert(items.drop_last().subrange(0, i) =~= items.subrange(0, i));
    }
}

/// Output of a parsed file: each copied line with a newline after it, and in
/// place of the k-th spliced file the bytes `parts[k]`.
pub fn assemble(items: &Vec<SourceItem>, parts: &Vec<Vec<u8>>) -> (r: Vec<u8>)
    requires
        parts@.len() == imports_of(items_view(items@)).len(),
    ensures
        r@ == assembled(items_view(items@), byte_views(parts@)),
{
    let ghost iv = items_view(items@);
    let ghost pv = byte_views(parts@);
    let np: usize = parts.len();
    let mut out: Vec<u8> = Vec::new();
    let mut i: usize = 0;
    let mut k: usize = 0;
    while i < items.len()
        invariant
            i <= items@.len(),
            iv == items_view(items@),
            pv == byte_views(parts@),
            parts@.len() == imports_of(iv).len(),
            k == imports_of(iv.subrange(0, i as int)).len(),
            k <= parts@.len(),
            np == parts@.len(),
            out@ == assembled(iv.subrange(0, i as int), pv.subrange(0, k as int)),
        decreases items@.len() - i,
    {
        proof {
            assert(iv.subrange(0, i as int + 1).drop_last() =~= iv.subrange(0, i as int));
            lemma_imports_prefix(iv, i as int + 1);
        }
        match &items[i] {
            SourceItem::Text(l) => {
                append_bytes(&mut out, l.as_slice());
                out.push(NEWLINE);
                proof {
                    assert(out@ =~= assembled(iv.subrange(0, i as int), pv.subrange(0, k as int))
                        + l@.push(NEWLINE));
                }
            },
            SourceItem::Import(p) => {
                proof {
                    assert(imports_of(iv.subrange(0, i as int + 1)) == imports_of(
                        iv.subrange(0, i as int),
                    ).push(p@));
                }
                append_bytes(&mut out, parts[k].as_slice());
                proof {
                    assert(pv.subrange(0, k as int + 1).drop_last() =~= pv.subrange(0, k as int));
                    assert(pv.subrange(0, k as int + 1).last() == parts@[k as int]@);
                }
                k = k + 1;
            },
        }
        i = i + 1;
    }
    proof {
        assert(iv.subrange(0, i as int) =~= iv);
        assert(pv.subrange(0, k as int) =~= pv);
    }
    out
}

} // verus!
