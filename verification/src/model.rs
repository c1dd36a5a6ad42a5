//! The data model: a document is an ordered sequence of blocks with a
//! language descriptor; routing fills four append-only destinations.

use vstd::prelude::*;
use vstd::string::StringExecFns;

verus! {

/// The kind of a block: code, markdown, or anything else.
#[derive(Clone, Copy, Debug, PartialEq, Eq, Structural)]
pub enum BlockKind {
    Code,
    Markdown,
    Other,
}

/// One unit of the source document: a kind and the block's lines in their
/// original order. The line sequence may be empty.
pub struct Block {
    pub kind: BlockKind,
    pub lines: Vec<String>,
}

pub struct BlockView {
    pub kind: BlockKind,
    pub lines: Seq<Seq<char>>,
}

impl View for Block {
    type V = BlockView;

    open spec fn view(&self) -> BlockView {
        BlockView { kind: self.kind, lines: self.lines.deep_view() }
    }
}

impl DeepView for Block {
    type V = BlockView;

    open spec fn deep_view(&self) -> BlockView {
        self.view()
    }
}

/// Identifies the scripting language of the code blocks and the extension
/// of the primary code output file (which may be empty).
pub struct LanguageInfo {
    pub name: String,
    pub file_extension: String,
}

pub struct LanguageInfoView {
    pub name: Seq<char>,
    pub file_extension: Seq<char>,
}

impl View for LanguageInfo {
    type V = LanguageInfoView;

    open spec fn view(&self) -> LanguageInfoView {
        LanguageInfoView { name: self.name@, file_extension: self.file_extension@ }
    }
}

/// The decoded input: ordered blocks and the language descriptor.
pub struct Document {
    pub blocks: Vec<Block>,
    pub language: LanguageInfo,
}

pub struct DocumentView {
    pub blocks: Seq<BlockView>,
    pub language: LanguageInfoView,
}

impl View for Document {
    type V = DocumentView;

    open spec fn view(&self) -> DocumentView {
        DocumentView { blocks: self.blocks.deep_view(), language: self.language@ }
    }
}

/// The four output buffers. Each element is one chunk as the router wrote
/// it: lines carry their terminator, shell chunks carry none.
pub struct Destinations {
    pub code: Vec<String>,
    pub markdown: Vec<String>,
    pub shell: Vec<String>,
    pub unknown: Vec<String>,
}

pub struct DestinationsView {
    pub code: Seq<Seq<char>>,
    pub markdown: Seq<Seq<char>>,
    pub shell: Seq<Seq<char>>,
    pub unknown: Seq<Seq<char>>,
}

impl View for Destinations {
    type V = DestinationsView;

    open spec fn view(&self) -> DestinationsView {
        DestinationsView {
            code: self.code.deep_view(),
            markdown: self.markdown.deep_view(),
            shell: self.shell.deep_view(),
            unknown: self.unknown.deep_view(),
        }
    }
}

pub open spec fn empty_destinations() -> DestinationsView {
    DestinationsView {
        code: Seq::empty(),
        markdown: Seq::empty(),
        shell: Seq::empty(),
        unknown: Seq::empty(),
    }
}

impl Destinations {
    /// Four empty buffers.
    pub fn new() -> (d: Destinations)
        ensures
            d@ == empty_destinations(),
    {
        let d = Destinations {
            code: Vec::new(),
            markdown: Vec::new(),
            shell: Vec::new(),
            unknown: Vec::new(),
        };
        proof {
            assert(d@.code =~= empty_destinations().code);
            assert(d@.markdown =~= empty_destinations().markdown);
            assert(d@.shell =~= empty_destinations().shell);
            assert(d@.unknown =~= empty_destinations().unknown);
        }
        d
    }
}

/// The block kind that a document cell's type tag names.
pub open spec fn kind_of_cell_type_spec(cell_type: Seq<char>) -> BlockKind {
    if cell_type == "code"@ {
        BlockKind::Code
    } else if cell_type == "markdown"@ {
        BlockKind::Markdown
    } else {
        BlockKind::Other
    }
}

/// Maps a cell's type tag to its block kind: `code` and `markdown` are
/// recognized, anything else is other.
pub fn kind_of_cell_type(cell_type: &str) -> (k: BlockKind)
    ensures
        k == kind_of_cell_type_spec(cell_type@),
{
    let ct = String::from_str(cell_type);
    if ct.eq(&String::from_str("code")) {
        BlockKind::Code
    } else if ct.eq(&String::from_str("markdown")) {
        BlockKind::Markdown
    } else {
        BlockKind::Other
    }
}

} // verus!
