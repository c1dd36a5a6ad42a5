//! The block router: walks the document's blocks in order and appends each
//! line, possibly transformed, to one of the four destinations.
//!
//! Markdown lines go to the markdown destination with a two-space line
//! break terminator; lines of other blocks go verbatim, newline-terminated,
//! to the unknown destination. In a code block, a first line whose trimmed
//! form starts with `%%` marks the block as a shell-invoked cell and is
//! consumed; each remaining line is either shell-escaped (routed to the
//! shell destination with its leading `!`s stripped and no terminator
//! added), rewritten by the printout heuristic (python, ordinary cell), or
//! written verbatim with a newline to the primary code destination.

use crate::classify::{
    is_printout, is_printout_spec, is_shell_cell_spec, is_shell_code, is_shell_code_cell,
    is_shell_line_spec, printout_line, printout_line_spec, shell_chunk_spec,
};
use crate::model::{
    empty_destinations, Block, BlockKind, BlockView, Destinations, DestinationsView, Document,
    DocumentView, LanguageInfo, LanguageInfoView,
};
use crate::text::strip_bangs_of;
use vstd::prelude::*;
use vstd::string::StringExecFns;

verus! {

pub open spec fn newline_seq() -> Seq<char> {
    seq!['\n']
}

/// The markdown line terminator: two spaces and a newline, the convention
/// that forces a line break in rendered markdown.
pub open spec fn md_terminator() -> Seq<char> {
    seq![' ', ' ', '\n']
}

/// What the primary code destination receives for a non-shell-escaped line.
pub open spec fn code_chunk_spec(line: Seq<char>, shell_cell: bool, python: bool) -> Seq<char> {
    if python && is_printout_spec(line) && !shell_cell {
        printout_line_spec(line)
    } else {
        line + newline_seq()
    }
}

/// The chunks that the lines of a code block, past any directive line,
/// contribute to the primary code and shell destinations, in order.
pub open spec fn route_code_lines_spec(lines: Seq<Seq<char>>, shell_cell: bool, python: bool) -> (
    Seq<Seq<char>>,
    Seq<Seq<char>>,
)
    decreases lines.len(),
{
    if lines.len() == 0 {
        (Seq::empty(), Seq::empty())
    } else {
        let r = route_code_lines_spec(lines.drop_last(), shell_cell, python);
        let l = lines.last();
        if is_shell_line_spec(l) {
            (r.0, r.1.push(shell_chunk_spec(l)))
        } else {
            (r.0.push(code_chunk_spec(l, shell_cell, python)), r.1)
        }
    }
}

/// The lines of a code block that are routed: all of them, unless the block
/// is a shell-invoked cell, whose directive line is consumed.
pub open spec fn code_block_body(lines: Seq<Seq<char>>) -> Seq<Seq<char>> {
    if is_shell_cell_spec(lines) {
        lines.drop_first()
    } else {
        lines
    }
}

pub open spec fn markdown_chunks(lines: Seq<Seq<char>>) -> Seq<Seq<char>> {
    lines.map_values(|l: Seq<char>| l + md_terminator())
}

pub open spec fn unknown_chunks(lines: Seq<Seq<char>>) -> Seq<Seq<char>> {
    lines.map_values(|l: Seq<char>| l + newline_seq())
}

/// What one block contributes to each destination.
pub open spec fn block_delta(b: BlockView, python: bool) -> DestinationsView {
    match b.kind {
        BlockKind::Code => {
            let sc = is_shell_cell_spec(b.lines);
            let r = route_code_lines_spec(code_block_body(b.lines), sc, python);
            DestinationsView {
                code: r.0,
                shell: r.1,
                markdown: Seq::empty(),
                unknown: Seq::empty(),
            }
        },
        BlockKind::Markdown => DestinationsView {
            code: Seq::empty(),
            shell: Seq::empty(),
            markdown: markdown_chunks(b.lines),
            unknown: Seq::empty(),
        },
        BlockKind::Other => DestinationsView {
            code: Seq::empty(),
            shell: Seq::empty(),
            markdown: Seq::empty(),
            unknown: unknown_chunks(b.lines),
        },
    }
}

pub open spec fn dest_concat(a: DestinationsView, b: DestinationsView) -> DestinationsView {
    DestinationsView {
        code: a.code + b.code,
        markdown: a.markdown + b.markdown,
        shell: a.shell + b.shell,
        unknown: a.unknown + b.unknown,
    }
}

/// The destinations after routing a sequence of blocks into empty buffers.
pub open spec fn route_blocks_spec(blocks: Seq<BlockView>, python: bool) -> DestinationsView
    decreases blocks.len(),
{
    if blocks.len() == 0 {
        empty_destinations()
    } else {
        dest_concat(
            route_blocks_spec(blocks.drop_last(), python),
            block_delta(blocks.last(), python),
        )
    }
}

/// The printout heuristic fires only when the language is named `python`.
pub open spec fn python_language(lang: LanguageInfoView) -> bool {
    lang.name == "python"@
}

/// The routing contract: what each destination holds after a full pass
/// over the document.
pub open spec fn route_spec(doc: DocumentView) -> DestinationsView {
    route_blocks_spec(doc.blocks, python_language(doc.language))
}

/// Appends one chunk to an output buffer.
fn push_chunk(buf: &mut Vec<String>, chunk: String)
    ensures
        final(buf).deep_view() == old(buf).deep_view().push(chunk@),
{
    let ghost old_dv = buf.deep_view();
    let ghost c = chunk@;
    buf.push(chunk);
    proof {
        assert(buf.deep_view() =~= old_dv.push(c));
    }
}

/// Decides whether the language descriptor names python.
pub fn is_python_language(lang: &LanguageInfo) -> (r: bool)
    ensures
        r == python_language(lang@),
{
    lang.name.eq(&String::from_str("python"))
}

/// Routes one block, appending its lines to the destinations it feeds.
pub fn route_block_into(dests: &mut Destinations, block: &Block, python: bool)
    ensures
        final(dests)@ == dest_concat(old(dests)@, block_delta(block@, python)),
{
    let ghost orig = old(dests)@;
    match block.kind {
        BlockKind::Markdown => {
            let mut i: usize = 0;
            while i < block.lines.len()
                invariant
                    i <= block.lines.len(),
                    block@.kind == BlockKind::Markdown,
                    dests@.code == orig.code,
                    dests@.shell == orig.shell,
                    dests@.unknown == orig.unknown,
                    dests@.markdown == orig.markdown + markdown_chunks(
                        block@.lines.subrange(0, i as int),
                    ),
                decreases block.lines.len() - i,
            {
                let mut chunk = block.lines[i].clone();
                chunk.append("  \n");
                proof {
                    reveal_strlit("  \n");
                    assert("  \n"@ =~= md_terminator());
                    assert(chunk@ == block@.lines[i as int] + md_terminator());
                }
                push_chunk(&mut dests.markdown, chunk);
                proof {
                    assert(markdown_chunks(block@.lines.subrange(0, i as int + 1)) =~= markdown_chunks(
                        block@.lines.subrange(0, i as int),
                    ).push(block@.lines[i as int] + md_terminator()));
                    assert(dests@.markdown =~= orig.markdown + markdown_chunks(
                        block@.lines.subrange(0, i as int + 1),
                    ));
                }
                i += 1;
            }
            proof {
                assert(block@.lines.subrange(0, block@.lines.len() as int) =~= block@.lines);
                assert(dests@ =~= dest_concat(orig, block_delta(block@, python)));
            }
        },
        BlockKind::Other => {
            let mut i: usize = 0;
            while i < block.lines.len()
                invariant
                    i <= block.lines.len(),
                    block@.kind == BlockKind::Other,
                    dests@.code == orig.code,
                    dests@.shell == orig.shell,
                    dests@.markdown == orig.markdown,
                    dests@.unknown == orig.unknown + unknown_chunks(
                        block@.lines.subrange(0, i as int),
                    ),
                decreases block.lines.len() - i,
            {
                let mut chunk = block.lines[i].clone();
                chunk.append("\n");
                proof {
                    reveal_strlit("\n");
                    assert("\n"@ =~= newline_seq());
                    assert(chunk@ == block@.lines[i as int] + newline_seq());
                }
                push_chunk(&mut dests.unknown, chunk);
                proof {
                    assert(unknown_chunks(block@.lines.subrange(0, i as int + 1)) =~= unknown_chunks(
                        block@.lines.subrange(0, i as int),
                    ).push(block@.lines[i as int] + newline_seq()));
                    assert(dests@.unknown =~= orig.unknown + unknown_chunks(
                        block@.lines.subrange(0, i as int + 1),
                    ));
                }
                i += 1;
            }
            proof {
                assert(block@.lines.subrange(0, block@.lines.len() as int) =~= block@.lines);
                assert(dests@ =~= dest_concat(orig, block_delta(block@, python)));
            }
        },
        BlockKind::Code => {
            let sc = is_shell_code_cell(&block.lines);
            proof {
                if block@.lines.len() == 0 {
                    assert(!is_shell_cell_spec(block@.lines));
                }
            }
            let start: usize = if sc {
                1
            } else {
                0
            };
            let mut i: usize = start;
            while i < block.lines.len()
                invariant
                    start <= i <= block.lines.len(),
                    start == (if sc {
                        1int
                    } else {
                        0int
                    }),
                    sc == is_shell_cell_spec(block@.lines),
                    sc ==> block@.lines.len() >= 1,
                    block@.kind == BlockKind::Code,
                    dests@.markdown == orig.markdown,
                    dests@.unknown == orig.unknown,
                    ({
                        let r = route_code_lines_spec(
                            block@.lines.subrange(start as int, i as int),
                            sc,
                            python,
                        );
                        dests@.code == orig.code + r.0 && dests@.shell == orig.shell + r.1
                    }),
                decreases block.lines.len() - i,
            {
                let line: &String = &block.lines[i];
                proof {
                    assert(line@ == block@.lines[i as int]);
                }
                if is_shell_code(line.as_str()) {
                    let s1 = strip_bangs_of(line.as_str());
                    let s2 = strip_bangs_of(s1);
                    push_chunk(&mut dests.shell, String::from_str(s2));
                } else if python && is_printout(line.as_str()) && !sc {
                    push_chunk(&mut dests.code, printout_line(line.as_str()));
                } else {
                    let mut chunk = line.clone();
                    chunk.append("\n");
                    proof {
                        reveal_strlit("\n");
                        assert("\n"@ =~= newline_seq());
                        assert(chunk@ == block@.lines[i as int] + newline_seq());
                    }
                    push_chunk(&mut dests.code, chunk);
                }
                proof {
                    let pre = block@.lines.subrange(start as int, i as int);
                    let post = block@.lines.subrange(start as int, i as int + 1);
                    assert(post.drop_last() =~= pre);
                    assert(post.last() == block@.lines[i as int]);
                }
                i += 1;
            }
            proof {
                if sc {
                    assert(block@.lines.subrange(1, block@.lines.len() as int) =~= block@.lines.drop_first());
                } else {
                    assert(block@.lines.subrange(0, block@.lines.len() as int) =~= block@.lines);
                }
                assert(dests@ =~= dest_concat(orig, block_delta(block@, python)));
            }
        },
    }
}

/// Routes a whole document: a single pass over its blocks, in order, into
/// four fresh destination buffers.
pub fn route(doc: &Document) -> (dests: Destinations)
    ensures
        dests@ == route_spec(doc@),
{
    let python = is_python_language(&doc.language);
    let mut dests = Destinations::new();
    let mut i: usize = 0;
    while i < doc.blocks.len()
        invariant
            i <= doc.blocks.len(),
            python == python_language(doc@.language),
            dests@ == route_blocks_spec(doc@.blocks.subrange(0, i as int), python),
        decreases doc.blocks.len() - i,
    {
        let block: &Block = &doc.blocks[i];
        proof {
            assert(block@ == doc@.blocks[i as int]);
        }
        route_block_into(&mut dests, block, python);
        proof {
            let pre = doc@.blocks.subrange(0, i as int);
            let post = doc@.blocks.subrange(0, i as int + 1);
            assert(post.drop_last() =~= pre);
            assert(post.last() == doc@.blocks[i as int]);
        }
        i += 1;
    }
    proof {
        assert(doc@.blocks.subrange(0, doc@.blocks.len() as int) =~= doc@.blocks);
    }
    dests
}

} // verus!
