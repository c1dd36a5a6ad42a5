//! Properties of the router that hold of every document, stated and proved
//! over the routing specification.

use crate::classify::{is_shell_cell_spec, is_shell_line_spec, shell_chunk_spec};
use crate::model::{BlockKind, BlockView, DestinationsView, DocumentView};
use crate::router::{
    block_delta, md_terminator, route_blocks_spec, route_code_lines_spec, route_spec,
};
use crate::text::{lemma_strip_bangs_idempotent, lemma_strip_bangs_suffix, strip_bangs_spec};
use vstd::prelude::*;

verus! {

/// A document with no blocks writes nothing to any destination.
pub proof fn lemma_empty_document_routes_nothing(doc: DocumentView)
    requires
        doc.blocks.len() == 0,
    ensures
        route_spec(doc).code.len() == 0,
        route_spec(doc).markdown.len() == 0,
        route_spec(doc).shell.len() == 0,
        route_spec(doc).unknown.len() == 0,
{
}

/// A chunk that ends with the markdown line break: two spaces, then a
/// newline.
pub open spec fn ends_with_md_break(c: Seq<char>) -> bool {
    c.len() >= 3 && c[c.len() - 3] == ' ' && c[c.len() - 2] == ' ' && c[c.len() - 1] == '\n'
}

/// A chunk whose trailing spaces before the newline are exactly the two of
/// the markdown line break.
pub open spec fn md_break_exact(c: Seq<char>) -> bool {
    ends_with_md_break(c) && (c.len() == 3 || c[c.len() - 4] != ' ')
}

proof fn lemma_blocks_markdown_terminated(blocks: Seq<BlockView>, python: bool)
    ensures
        forall|i: int|
            0 <= i < route_blocks_spec(blocks, python).markdown.len() ==> ends_with_md_break(
                #[trigger] route_blocks_spec(blocks, python).markdown[i],
            ),
    decreases blocks.len(),
{
    if blocks.len() > 0 {
        lemma_blocks_markdown_terminated(blocks.drop_last(), python);
        let prev = route_blocks_spec(blocks.drop_last(), python).markdown;
        let delta = block_delta(blocks.last(), python).markdown;
        let md = route_blocks_spec(blocks, python).markdown;
        assert forall|i: int| 0 <= i < md.len() implies ends_with_md_break(md[i]) by {
            if i < prev.len() {
                assert(md[i] == prev[i]);
            } else {
                let j = i - prev.len();
                assert(md[i] == delta[j]);
                let b = blocks.last();
                match b.kind {
                    BlockKind::Markdown => {
                        let l = b.lines[j];
                        assert(delta[j] == l + md_terminator());
                        assert((l + md_terminator())[l.len() as int] == ' ');
                        assert((l + md_terminator())[l.len() as int + 1] == ' ');
                        assert((l + md_terminator())[l.len() as int + 2] == '\n');
                    },
                    BlockKind::Code => {},
                    BlockKind::Other => {},
                }
            }
        }
    }
}

/// Every chunk of the markdown destination ends with the markdown line
/// break: two trailing spaces before its newline.
pub proof fn lemma_markdown_lines_terminated(doc: DocumentView)
    ensures
        forall|i: int|
            0 <= i < route_spec(doc).markdown.len() ==> ends_with_md_break(
                #[trigger] route_spec(doc).markdown[i],
            ),
{
    lemma_blocks_markdown_terminated(doc.blocks, python_of(doc));
}

pub open spec fn python_of(doc: DocumentView) -> bool {
    crate::router::python_language(doc.language)
}

/// A markdown line that does not itself end with a space.
pub open spec fn line_lacks_trailing_space(l: Seq<char>) -> bool {
    l.len() == 0 || l[l.len() - 1] != ' '
}

/// Every markdown line of the document lacks a trailing space.
pub open spec fn markdown_lines_lack_trailing_space(blocks: Seq<BlockView>) -> bool {
    forall|i: int, j: int|
        0 <= i < blocks.len() && blocks[i].kind == BlockKind::Markdown && 0 <= j
            < (#[trigger] blocks[i].lines).len() ==> line_lacks_trailing_space(
            #[trigger] blocks[i].lines[j],
        )
}

proof fn lemma_blocks_markdown_exact(blocks: Seq<BlockView>, python: bool)
    requires
        markdown_lines_lack_trailing_space(blocks),
    ensures
        forall|i: int|
            0 <= i < route_blocks_spec(blocks, python).markdown.len() ==> md_break_exact(
                #[trigger] route_blocks_spec(blocks, python).markdown[i],
            ),
    decreases blocks.len(),
{
    if blocks.len() > 0 {
        assert forall|i: int, j: int|
            0 <= i < blocks.drop_last().len() && blocks.drop_last()[i].kind == BlockKind::Markdown
                && 0 <= j < (#[trigger] blocks.drop_last()[i].lines).len() implies
            line_lacks_trailing_space(#[trigger] blocks.drop_last()[i].lines[j]) by {
            assert(blocks.drop_last()[i] == blocks[i]);
        }
        lemma_blocks_markdown_exact(blocks.drop_last(), python);
        let prev = route_blocks_spec(blocks.drop_last(), python).markdown;
        let delta = block_delta(blocks.last(), python).markdown;
        let md = route_blocks_spec(blocks, python).markdown;
        assert forall|i: int| 0 <= i < md.len() implies md_break_exact(md[i]) by {
            if i < prev.len() {
                assert(md[i] == prev[i]);
            } else {
                let j = i - prev.len();
                assert(md[i] == delta[j]);
                let b = blocks.last();
                match b.kind {
                    BlockKind::Markdown => {
                        let l = b.lines[j];
                        assert(b == blocks[blocks.len() - 1]);
                        assert(line_lacks_trailing_space(l));
                        assert(delta[j] == l + md_terminator());
                        assert((l + md_terminator())[l.len() as int] == ' ');
                        assert((l + md_terminator())[l.len() as int + 1] == ' ');
                        assert((l + md_terminator())[l.len() as int + 2] == '\n');
                        if l.len() > 0 {
                            assert((l + md_terminator())[l.len() - 1] == l[l.len() - 1]);
                        }
                    },
                    BlockKind::Code => {},
                    BlockKind::Other => {},
                }
            }
        }
    }
}

/// When no markdown line of the document itself ends with a space, every
/// chunk of the markdown destination ends with exactly two trailing spaces
/// before its newline.
pub proof fn lemma_markdown_exactly_two_spaces(doc: DocumentView)
    requires
        markdown_lines_lack_trailing_space(doc.blocks),
    ensures
        forall|i: int|
            0 <= i < route_spec(doc).markdown.len() ==> md_break_exact(
                #[trigger] route_spec(doc).markdown[i],
            ),
{
    lemma_blocks_markdown_exact(doc.blocks, python_of(doc));
}

proof fn lemma_route_code_lines_count(lines: Seq<Seq<char>>, shell_cell: bool, python: bool)
    ensures
        route_code_lines_spec(lines, shell_cell, python).0.len() + route_code_lines_spec(
            lines,
            shell_cell,
            python,
        ).1.len() == lines.len(),
    decreases lines.len(),
{
    if lines.len() > 0 {
        lemma_route_code_lines_count(lines.drop_last(), shell_cell, python);
    }
}

/// A code block whose first line does not carry the `%%` marker skips no
/// directive line: every one of its lines yields exactly one chunk, in the
/// primary code and shell destinations together.
pub proof fn lemma_ordinary_code_block_keeps_all_lines(b: BlockView, python: bool)
    requires
        b.kind == BlockKind::Code,
        !is_shell_cell_spec(b.lines),
    ensures
        block_delta(b, python).code.len() + block_delta(b, python).shell.len() == b.lines.len(),
{
    lemma_route_code_lines_count(b.lines, false, python);
}

/// A shell-invoked cell consumes its directive line and routes the rest:
/// one chunk for every line past the first.
pub proof fn lemma_shell_cell_consumes_directive(b: BlockView, python: bool)
    requires
        b.kind == BlockKind::Code,
        is_shell_cell_spec(b.lines),
        b.lines.len() >= 1,
    ensures
        block_delta(b, python).code.len() + block_delta(b, python).shell.len() == b.lines.len()
            - 1,
{
    lemma_route_code_lines_count(b.lines.drop_first(), true, python);
}

/// A line that begins with `!` and is routed to the shell destination is
/// written with only leading `!` characters removed — the second pass of
/// the double-strip rule removes nothing — and the router appends no
/// trailing newline: the written chunk is a suffix of the line itself.
pub proof fn lemma_shell_chunk_strips_only_leading_bangs(
    line: Seq<char>,
    shell_cell: bool,
    python: bool,
)
    requires
        line.len() > 0,
        line[0] == '!',
        is_shell_line_spec(line),
    ensures
        shell_chunk_spec(line) == strip_bangs_spec(line),
        exists|k: int|
            0 <= k <= line.len() && shell_chunk_spec(line) == line.subrange(k, line.len() as int)
                && (forall|j: int| 0 <= j < k ==> line[j] == '!'),
        route_code_lines_spec(seq![line], shell_cell, python) == (
            Seq::<Seq<char>>::empty(),
            seq![shell_chunk_spec(line)],
        ),
{
    lemma_strip_bangs_idempotent(line);
    lemma_strip_bangs_suffix(line);
    let r = route_code_lines_spec(seq![line], shell_cell, python);
    assert(seq![line].drop_last() =~= Seq::<Seq<char>>::empty());
    assert(seq![line].last() == line);
    assert(route_code_lines_spec(Seq::<Seq<char>>::empty(), shell_cell, python) == (
        Seq::<Seq<char>>::empty(),
        Seq::<Seq<char>>::empty(),
    ));
    assert(r.0 =~= Seq::<Seq<char>>::empty());
    assert(r.1 =~= seq![shell_chunk_spec(line)]);
}

/// Routing is deterministic: two destination sets that both satisfy the
/// routing contract for one document are equal.
pub proof fn lemma_route_deterministic(
    doc: DocumentView,
    d1: DestinationsView,
    d2: DestinationsView,
)
    requires
        d1 == route_spec(doc),
        d2 == route_spec(doc),
    ensures
        d1 == d2,
{
}

} // verus!
