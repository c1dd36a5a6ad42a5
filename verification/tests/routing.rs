use nbroute::model::{Block, BlockKind, Document, LanguageInfo};
use nbroute::router::route;

fn doc(name: &str, blocks: Vec<Block>) -> Document {
    Document {
        blocks,
        language: LanguageInfo {
            name: name.to_string(),
            file_extension: ".py".to_string(),
        },
    }
}

fn block(kind: BlockKind, lines: &[&str]) -> Block {
    Block {
        kind,
        lines: lines.iter().map(|l| l.to_string()).collect(),
    }
}

fn strings(lines: &[&str]) -> Vec<String> {
    lines.iter().map(|l| l.to_string()).collect()
}

#[test]
fn empty_document_writes_nothing() {
    let d = route(&doc("python", Vec::new()));
    assert!(d.code.is_empty());
    assert!(d.markdown.is_empty());
    assert!(d.shell.is_empty());
    assert!(d.unknown.is_empty());
}

#[test]
fn markdown_line_gets_line_break() {
    let d = route(&doc("python", vec![block(BlockKind::Markdown, &["hello"])]));
    assert_eq!(d.markdown, strings(&["hello  \n"]));
    assert!(d.code.is_empty());
    assert!(d.shell.is_empty());
    assert!(d.unknown.is_empty());
}

#[test]
fn markdown_lines_keep_order() {
    let d = route(&doc("python", vec![block(BlockKind::Markdown, &["a", "b"])]));
    assert_eq!(d.markdown, strings(&["a  \n", "b  \n"]));
}

#[test]
fn python_printout_rewrite() {
    let d = route(&doc("python", vec![block(BlockKind::Code, &["x"])]));
    assert_eq!(d.code, strings(&["print(\"x = \", x)\n"]));
    assert!(d.shell.is_empty());
}

#[test]
fn printout_splices_raw_line() {
    let d = route(&doc("python", vec![block(BlockKind::Code, &["  x  "])]));
    assert_eq!(d.code, strings(&["print(\"  x   = \",   x  )\n"]));
}

#[test]
fn shell_cell_directive_consumed() {
    let d = route(&doc(
        "python",
        vec![block(BlockKind::Code, &["%%bash", "!echo hi", "x=1"])],
    ));
    assert_eq!(d.shell, strings(&["echo hi"]));
    assert_eq!(d.code, strings(&["x=1\n"]));
    assert!(d.markdown.is_empty());
    assert!(d.unknown.is_empty());
}

#[test]
fn double_bang_line_fully_stripped() {
    let d = route(&doc("python", vec![block(BlockKind::Code, &["!!cmd"])]));
    assert_eq!(d.shell, strings(&["cmd"]));
}

#[test]
fn triple_bang_line_fully_stripped() {
    let d = route(&doc("python", vec![block(BlockKind::Code, &["!!!x"])]));
    assert_eq!(d.shell, strings(&["x"]));
}

#[test]
fn bang_keeps_rest_of_line() {
    let d = route(&doc("python", vec![block(BlockKind::Code, &["! echo"])]));
    assert_eq!(d.shell, strings(&[" echo"]));
}

#[test]
fn percent_line_kept_verbatim_in_shell() {
    let d = route(&doc("python", vec![block(BlockKind::Code, &["%time"])]));
    assert_eq!(d.shell, strings(&["%time"]));
    assert!(d.code.is_empty());
}

#[test]
fn printout_never_fires_in_shell_cell() {
    let d = route(&doc("python", vec![block(BlockKind::Code, &["%%bash", "x"])]));
    assert_eq!(d.code, strings(&["x\n"]));
    assert!(d.shell.is_empty());
}

#[test]
fn printout_needs_python() {
    let d = route(&doc("rust", vec![block(BlockKind::Code, &["x"])]));
    assert_eq!(d.code, strings(&["x\n"]));
}

#[test]
fn whitespace_line_not_printout() {
    let d = route(&doc("python", vec![block(BlockKind::Code, &["   "])]));
    assert_eq!(d.code, strings(&["   \n"]));
}

#[test]
fn empty_code_block_writes_nothing() {
    let d = route(&doc("python", vec![block(BlockKind::Code, &[])]));
    assert!(d.code.is_empty());
    assert!(d.shell.is_empty());
}

#[test]
fn other_block_goes_to_unknown() {
    let d = route(&doc("python", vec![block(BlockKind::Other, &["raw text"])]));
    assert_eq!(d.unknown, strings(&["raw text\n"]));
    assert!(d.code.is_empty());
    assert!(d.markdown.is_empty());
}

#[test]
fn blocks_append_in_document_order() {
    let d = route(&doc(
        "python",
        vec![
            block(BlockKind::Code, &["a=1"]),
            block(BlockKind::Markdown, &["title"]),
            block(BlockKind::Code, &["b=2"]),
        ],
    ));
    assert_eq!(d.code, strings(&["a=1\n", "b=2\n"]));
    assert_eq!(d.markdown, strings(&["title  \n"]));
}

#[test]
fn routing_twice_is_identical() {
    let document = doc(
        "python",
        vec![
            block(BlockKind::Code, &["%%bash", "!echo hi", "x=1"]),
            block(BlockKind::Markdown, &["hello"]),
            block(BlockKind::Code, &["x"]),
            block(BlockKind::Other, &["stuff"]),
        ],
    );
    let d1 = route(&document);
    let d2 = route(&document);
    assert_eq!(d1.code, d2.code);
    assert_eq!(d1.markdown, d2.markdown);
    assert_eq!(d1.shell, d2.shell);
    assert_eq!(d1.unknown, d2.unknown);
}

#[test]
fn directive_detected_after_whitespace() {
    let d = route(&doc(
        "python",
        vec![block(BlockKind::Code, &["  %%bash  ", "y=2"])],
    ));
    assert_eq!(d.code, strings(&["y=2\n"]));
    assert!(d.shell.is_empty());
}

#[test]
fn empty_markdown_block_writes_nothing() {
    let d = route(&doc("python", vec![block(BlockKind::Markdown, &[])]));
    assert!(d.markdown.is_empty());
}
