use textamp::markdown::{render_markdown, BlockKind, GuideBlock};

fn view(blocks: &[GuideBlock]) -> Vec<(BlockKind, String)> {
    blocks.iter().map(|b| (b.kind, b.text.clone())).collect()
}

fn b(kind: BlockKind, text: &str) -> (BlockKind, String) {
    (kind, text.to_string())
}

#[test]
fn headings_bullets_paragraphs_and_fences() {
    let src = "# Title\nSome text\ncontinues **here**.\n\n- item `one`\n```\ncargo build\n```\n## Sub\n### Third\nlast";
    assert_eq!(
        view(&render_markdown(src)),
        vec![
            b(BlockKind::Heading1, "Title"),
            b(BlockKind::Paragraph, "Some text continues here."),
            b(BlockKind::Bullet, "item one"),
            b(BlockKind::Divider, ""),
            b(BlockKind::Divider, ""),
            b(BlockKind::Heading2, "Sub"),
            b(BlockKind::Heading3, "Third"),
            b(BlockKind::Paragraph, "last"),
        ]
    );
}

#[test]
fn trailing_whitespace_and_crlf_are_trimmed() {
    let src = "first line   \r\nsecond\t\r\n\r\n#NoSpace";
    assert_eq!(
        view(&render_markdown(src)),
        vec![b(BlockKind::Paragraph, "first line second"), b(BlockKind::Paragraph, "#NoSpace")]
    );
}

#[test]
fn emphasis_markers_are_removed_but_single_underscores_stay() {
    let src = "__bold__ *it* snake_case";
    assert_eq!(view(&render_markdown(src)), vec![b(BlockKind::Paragraph, "bold it snake_case")]);
}

#[test]
fn unclosed_fence_drops_the_rest() {
    let src = "intro\n```rust\nfn main() {}\n# not a heading";
    assert_eq!(view(&render_markdown(src)), vec![b(BlockKind::Paragraph, "intro"), b(BlockKind::Divider, "")]);
}

#[test]
fn empty_input_gives_no_blocks() {
    assert!(render_markdown("").is_empty());
    assert!(render_markdown("\n\n   \n").is_empty());
}
