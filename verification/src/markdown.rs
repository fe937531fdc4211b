//! The User Guide reader: markdown lines to document blocks. Headings
//! and bullets keep their own blocks, consecutive prose lines reflow into
//! one paragraph, blank lines end paragraphs, and fenced code is dropped
//! with a divider at each fence.

use vstd::prelude::*;
use crate::strings::{push_char, push_str, empty_string, split_lines, starts_with, strip_prefix, views, lines_acc};
use crate::text::{strip_md, strip_md_emphasis, trim_end, trim_end_str};

verus! {

/// The kind of a document block.
#[derive(PartialEq, Eq, Structural, Clone, Copy, Debug)]
pub enum BlockKind {
    Heading1,
    Heading2,
    Heading3,
    Bullet,
    Paragraph,
    Divider,
}

/// One block of the rendered guide (dividers carry no text).
#[derive(Clone, Debug)]
pub struct GuideBlock {
    pub kind: BlockKind,
    pub text: String,
}

/// A block as a value.
pub type BlockView = (BlockKind, Seq<char>);

/// The blocks as values.
pub open spec fn blocks_view(v: Seq<GuideBlock>) -> Seq<BlockView> {
    v.map_values(|b: GuideBlock| (b.kind, b.text@))
}

/// The pending paragraph as a block, if it has any text.
pub open spec fn flush_para(p: Seq<char>) -> Seq<BlockView> {
    if p.len() == 0 {
        Seq::<BlockView>::empty()
    } else {
        seq![(BlockKind::Paragraph, p)]
    }
}

/// A prose line joined onto the pending paragraph with one space.
pub open spec fn join_para(p: Seq<char>, line: Seq<char>) -> Seq<char> {
    if p.len() == 0 {
        line
    } else {
        p.push(' ') + line
    }
}

/// The blocks of the markdown `lines`, with `para` the pending paragraph
/// and `fence` whether a code fence is open.
pub open spec fn md_blocks(lines: Seq<Seq<char>>, para: Seq<char>, fence: bool) -> Seq<BlockView>
    decreases lines.len(),
{
    if lines.len() == 0 {
        flush_para(para)
    } else {
        let t = trim_end(lines[0]);
        let rest = lines.drop_first();
        let e = Seq::<char>::empty();
        if "```"@.is_prefix_of(t) {
            flush_para(para) + seq![(BlockKind::Divider, e)] + md_blocks(rest, e, !fence)
        } else if fence {
            md_blocks(rest, para, fence)
        } else if t.len() == 0 {
            flush_para(para) + md_blocks(rest, e, fence)
        } else if "# "@.is_prefix_of(t) {
            flush_para(para) + seq![(BlockKind::Heading1, strip_md(t.skip("# "@.len() as int)))] + md_blocks(rest, e, fence)
        } else if "## "@.is_prefix_of(t) {
            flush_para(para) + seq![(BlockKind::Heading2, strip_md(t.skip("## "@.len() as int)))] + md_blocks(rest, e, fence)
        } else if "### "@.is_prefix_of(t) {
            flush_para(para) + seq![(BlockKind::Heading3, strip_md(t.skip("### "@.len() as int)))] + md_blocks(rest, e, fence)
        } else if "- "@.is_prefix_of(t) {
            flush_para(para) + seq![(BlockKind::Bullet, strip_md(t.skip("- "@.len() as int)))] + md_blocks(rest, e, fence)
        } else {
            md_blocks(rest, join_para(para, strip_md(t)), fence)
        }
    }
}

/// The blocks of a markdown document.
pub open spec fn guide_spec(src: Seq<char>) -> Seq<BlockView> {
    md_blocks(lines_acc(src, Seq::<char>::empty()), Seq::<char>::empty(), false)
}

fn flush_paragraph(out: &mut Vec<GuideBlock>, para: String)
    ensures
        blocks_view(final(out)@) == blocks_view(old(out)@) + flush_para(para@),
{
    let ghost before = blocks_view(out@);
    if !para.as_str().is_empty() {
        let ghost pv = para@;
        out.push(GuideBlock { kind: BlockKind::Paragraph, text: para });
        proof {
            assert(blocks_view(out@) =~= before + seq![(BlockKind::Paragraph, pv)]);
        }
    } else {
        proof {
            assert(blocks_view(out@) =~= before + Seq::<BlockView>::empty());
        }
    }
}

fn push_block(out: &mut Vec<GuideBlock>, kind: BlockKind, text: String)
    ensures
        blocks_view(final(out)@) == blocks_view(old(out)@) + seq![(kind, text@)],
{
    let ghost before = blocks_view(out@);
    let ghost tv = text@;
    out.push(GuideBlock { kind, text });
    proof {
        assert(blocks_view(out@) =~= before + seq![(kind, tv)]);
    }
}

/// Parse the User Guide markdown into document blocks.
pub fn render_markdown(src: &str) -> (r: Vec<GuideBlock>)
    ensures
        blocks_view(r@) == guide_spec(src@),
{
    let lines = split_lines(src);
    let ghost ls = views(lines@);
    let ghost total = guide_spec(src@);
    let mut out: Vec<GuideBlock> = Vec::new();
    let mut paragraph = empty_string();
    let mut in_code_fence = false;
    let mut i: usize = 0;
    proof {
        assert(ls.skip(0) =~= ls);
        assert(blocks_view(out@) =~= Seq::<BlockView>::empty());
    }
    while i < lines.len()
        invariant
            i <= lines@.len(),
            ls == views(lines@),
            ls == lines_acc(src@, Seq::<char>::empty()),
            total == guide_spec(src@),
            blocks_view(out@) + md_blocks(ls.skip(i as int), paragraph@, in_code_fence) == total,
        decreases lines@.len() - i,
    {
        let ghost rest = ls.skip(i as int);
        let ghost before = blocks_view(out@);
        let ghost para = paragraph@;
        proof {
            assert(rest[0] == lines@[i as int]@);
            assert(rest.drop_first() =~= ls.skip(i as int + 1));
        }
        let trimmed = trim_end_str(lines[i].as_str());
        let t = trimmed.as_str();
        let ghost e = Seq::<char>::empty();
        if starts_with(t, "```") {
            flush_paragraph(&mut out, paragraph);
            paragraph = empty_string();
            in_code_fence = !in_code_fence;
            push_block(&mut out, BlockKind::Divider, empty_string());
            proof {
                assert(blocks_view(out@) + md_blocks(ls.skip(i as int + 1), paragraph@, in_code_fence) =~= before + (
                flush_para(para) + seq![(BlockKind::Divider, e)] + md_blocks(rest.drop_first(), e, in_code_fence)));
            }
        } else if in_code_fence {
        } else if t.is_empty() {
            flush_paragraph(&mut out, paragraph);
            paragraph = empty_string();
            proof {
                assert(blocks_view(out@) + md_blocks(ls.skip(i as int + 1), paragraph@, in_code_fence) =~= before + (
                flush_para(para) + md_blocks(rest.drop_first(), e, in_code_fence)));
            }
        } else {
            let kind: BlockKind;
            let body: Option<String>;
            match strip_prefix(t, "# ") {
                Some(r1) => {
                    kind = BlockKind::Heading1;
                    body = Some(r1);
                },
                None => match strip_prefix(t, "## ") {
                    Some(r2) => {
                        kind = BlockKind::Heading2;
                        body = Some(r2);
                    },
                    None => match strip_prefix(t, "### ") {
                        Some(r3) => {
                            kind = BlockKind::Heading3;
                            body = Some(r3);
                        },
                        None => match strip_prefix(t, "- ") {
                            Some(r4) => {
                                kind = BlockKind::Bullet;
                                body = Some(r4);
                            },
                            None => {
                                kind = BlockKind::Paragraph;
                                body = None;
                            },
                        },
                    },
                },
            }
            match body {
                Some(b) => {
                    flush_paragraph(&mut out, paragraph);
                    paragraph = empty_string();
                    let stripped = strip_md_emphasis(b.as_str());
                    let ghost sv = stripped@;
                    push_block(&mut out, kind, stripped);
                    proof {
                        assert(blocks_view(out@) + md_blocks(ls.skip(i as int + 1), paragraph@, in_code_fence) =~= before + (
                        flush_para(para) + seq![(kind, sv)] + md_blocks(rest.drop_first(), e, in_code_fence)));
                    }
                },
                None => {
                    if !paragraph.as_str().is_empty() {
                        push_char(&mut paragraph, ' ');
                    }
                    let stripped = strip_md_emphasis(t);
                    push_str(&mut paragraph, stripped.as_str());
                    proof {
                        assert(paragraph@ =~= join_para(para, strip_md(trimmed@)));
                    }
                },
            }
        }
        i = i + 1;
    }
    proof {
        assert(ls.skip(i as int) =~= Seq::<Seq<char>>::empty());
    }
    flush_paragraph(&mut out, paragraph);
    out
}

} // verus!
