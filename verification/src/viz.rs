//! The integer core of the spectrum and spectrogram canvases: which
//! spectrogram frame each screen column samples, which cells it paints,
//! and the averaged bar levels of one spectrum frame; and the visualizer
//! panel's tabs and what it shows.

use vstd::prelude::*;
use crate::action::Action;

verus! {

/// A track's spectrogram: `frame_count` frames of `bins_per_frame`
/// magnitudes (0..=255) each, stored frame after frame in `frames`.
#[derive(Clone, Debug)]
pub struct SpectrogramData {
    pub duration_ms: u64,
    pub bins_per_frame: usize,
    pub frame_count: usize,
    pub frames: Vec<u8>,
}

/// One painted spectrogram cell: screen column, frequency bin, magnitude.
#[derive(PartialEq, Eq, Structural, Clone, Copy, Debug)]
pub struct Cell {
    pub col: usize,
    pub bin: usize,
    pub level: u8,
}

/// The full-track spectrogram heatmap.
pub struct Spectrogram<'a> {
    pub data: Option<&'a SpectrogramData>,
    pub position_ms: u64,
}

/// The live spectrum of the frame under the playhead.
pub struct Spectrum<'a> {
    pub data: Option<&'a SpectrogramData>,
    pub position_ms: u64,
}

/// Frames between neighbouring screen columns (at least one).
pub open spec fn frame_step(frame_count: nat, column_count: nat) -> nat {
    if column_count == 0 || frame_count / column_count == 0 {
        1
    } else {
        frame_count / column_count
    }
}

/// The non-zero magnitudes of `bins` from bin `b` on, as cells of column `col`.
pub open spec fn column_cells(bins: Seq<u8>, col: nat, b: nat) -> Seq<Cell>
    decreases bins.len() - b,
{
    if b >= bins.len() {
        Seq::<Cell>::empty()
    } else if bins[b as int] == 0 {
        column_cells(bins, col, b + 1)
    } else {
        seq![Cell { col: col as usize, bin: b as usize, level: bins[b as int] }] + column_cells(bins, col, b + 1)
    }
}

/// The cells of columns `col..column_count`: column `c` samples frame
/// `c * step`; sampling stops at the first column past the last frame or
/// past the stored magnitudes.
pub open spec fn cells_from(frames: Seq<u8>, bins: nat, frame_count: nat, column_count: nat, col: nat) -> Seq<Cell>
    decreases column_count - col,
{
    let f = col * frame_step(frame_count, column_count);
    let start = f * bins;
    if col >= column_count || f >= frame_count || start + bins > frames.len() {
        Seq::<Cell>::empty()
    } else {
        column_cells(frames.subrange(start as int, (start + bins) as int), col, 0) + cells_from(
            frames,
            bins,
            frame_count,
            column_count,
            col + 1,
        )
    }
}

impl<'a> Spectrogram<'a> {
    /// The cells to paint across `column_count` screen columns (none
    /// without data or with an empty spectrogram).
    pub fn cells(&self, column_count: usize) -> (r: Vec<Cell>)
        requires
            self.data matches Some(d) ==> (d.frame_count * d.bins_per_frame <= usize::MAX && column_count
                * d.frame_count <= usize::MAX),
        ensures
            match self.data {
                Some(d) => if d.bins_per_frame == 0 || d.frame_count == 0 {
                    r@.len() == 0
                } else {
                    r@ == cells_from(d.frames@, d.bins_per_frame as nat, d.frame_count as nat, column_count as nat, 0)
                },
                None => r@.len() == 0,
            },
    {
        let d = match self.data {
            Some(d) => d,
            None => {
                return Vec::new();
            },
        };
        let bins = d.bins_per_frame;
        let fc = d.frame_count;
        if bins == 0 || fc == 0 {
            return Vec::new();
        }
        let step: usize = if column_count == 0 || fc / column_count == 0 {
            1
        } else {
            fc / column_count
        };
        let ghost total = cells_from(d.frames@, bins as nat, fc as nat, column_count as nat, 0);
        let mut out: Vec<Cell> = Vec::new();
        let mut col: usize = 0;
        while col < column_count
            invariant
                col <= column_count,
                self.data == Some(d),
                step == frame_step(fc as nat, column_count as nat),
                bins == d.bins_per_frame,
                fc == d.frame_count,
                bins > 0,
                fc * bins <= usize::MAX,
                column_count * fc <= usize::MAX,
                step <= fc,
                total == cells_from(d.frames@, bins as nat, fc as nat, column_count as nat, 0),
                out@ + cells_from(d.frames@, bins as nat, fc as nat, column_count as nat, col as nat) == total,
            decreases column_count - col,
        {
            proof {
                assert(col * step <= column_count * fc) by (nonlinear_arith)
                    requires
                        col <= column_count,
                        step <= fc,
                ;
            }
            let f = col * step;
            if f >= fc {
                proof {
                    assert(out@ + Seq::<Cell>::empty() =~= out@);
                }
                return out;
            }
            proof {
                assert(f * bins <= fc * bins) by (nonlinear_arith)
                    requires
                        f < fc,
                ;
            }
            let start = f * bins;
            if start > d.frames.len() || d.frames.len() - start < bins {
                proof {
                    assert(out@ + Seq::<Cell>::empty() =~= out@);
                }
                return out;
            }
            let end = start + bins;
            let ghost slice = d.frames@.subrange(start as int, end as int);
            let ghost before = out@;
            let mut b: usize = 0;
            proof {
                assert(column_cells(slice, col as nat, 0) == column_cells(slice, col as nat, 0));
            }
            while b < bins
                invariant
                    b <= bins,
                    bins == d.bins_per_frame,
                    end == start + bins,
                    end <= d.frames@.len(),
                    slice == d.frames@.subrange(start as int, end as int),
                    slice.len() == bins,
                    out@ + column_cells(slice, col as nat, b as nat) == before + column_cells(slice, col as nat, 0),
                decreases bins - b,
            {
                let v = d.frames[start + b];
                proof {
                    assert(slice[b as int] == v);
                }
                if v != 0 {
                    let ghost o = out@;
                    out.push(Cell { col, bin: b, level: v });
                    proof {
                        assert(out@ + column_cells(slice, col as nat, (b + 1) as nat) =~= o + column_cells(
                            slice,
                            col as nat,
                            b as nat,
                        ));
                    }
                }
                b = b + 1;
            }
            proof {
                assert(out@ + Seq::<Cell>::empty() =~= out@);
                assert(out@ + cells_from(d.frames@, bins as nat, fc as nat, column_count as nat, (col + 1) as nat)
                    =~= before + cells_from(d.frames@, bins as nat, fc as nat, column_count as nat, col as nat));
            }
            col = col + 1;
        }
        proof {
            assert(out@ + Seq::<Cell>::empty() =~= out@);
        }
        out
    }
}

/// Sum of `s[lo..hi]`.
pub open spec fn sum_range(s: Seq<u8>, lo: int, hi: int) -> nat
    decreases hi - lo,
{
    if hi <= lo {
        0
    } else {
        sum_range(s, lo, hi - 1) + s[hi - 1] as nat
    }
}

/// Bins averaged into one bar: a 64th of the frame (at least one).
pub open spec fn group_size(bins: nat) -> nat {
    if bins / 64 == 0 {
        1
    } else {
        bins / 64
    }
}

/// The bar levels of frame `frame_idx`: bar `i` is the integer mean of
/// bins `i*group .. (i+1)*group`.
pub open spec fn bar_levels_spec(frames: Seq<u8>, bins: nat, frame_idx: nat) -> Seq<u32> {
    let g = group_size(bins);
    let start = frame_idx * bins;
    Seq::new(bins / g, |i: int| (sum_range(frames, start + i * g, start + i * g + g) / g) as u32)
}

impl<'a> Spectrum<'a> {
    /// The bar levels (0..=255) of spectrogram frame `frame_idx`; none
    /// without data, with an empty spectrogram, or when the frame lies past
    /// the stored magnitudes.
    pub fn bar_levels(&self, frame_idx: usize) -> (r: Vec<u32>)
        requires
            self.data matches Some(d) ==> (frame_idx + 1) * d.bins_per_frame <= usize::MAX && group_size(
                d.bins_per_frame as nat,
            ) * 255 <= u32::MAX,
        ensures
            match self.data {
                Some(d) => if d.bins_per_frame == 0 || d.frame_count == 0 || (frame_idx + 1) * d.bins_per_frame
                    > d.frames@.len() {
                    r@.len() == 0
                } else {
                    r@ == bar_levels_spec(d.frames@, d.bins_per_frame as nat, frame_idx as nat)
                },
                None => r@.len() == 0,
            },
    {
        let d = match self.data {
            Some(d) => d,
            None => {
                return Vec::new();
            },
        };
        let bins = d.bins_per_frame;
        if bins == 0 || d.frame_count == 0 {
            return Vec::new();
        }
        proof {
            assert(frame_idx * bins + bins == (frame_idx + 1) * bins) by (nonlinear_arith);
        }
        let start = frame_idx * bins;
        let end = start + bins;
        if end > d.frames.len() {
            return Vec::new();
        }
        let group: usize = if bins / 64 == 0 { 1 } else { bins / 64 };
        let bar_count = bins / group;
        let ghost g = group as nat;
        let mut out: Vec<u32> = Vec::new();
        let mut i: usize = 0;
        proof {
            assert(bar_count * group <= bins) by (nonlinear_arith)
                requires
                    bar_count == bins / group,
                    group > 0,
            ;
        }
        while i < bar_count
            invariant
                i <= bar_count,
                bar_count == bins / group,
                bar_count * group <= bins,
                group == group_size(bins as nat),
                group * 255 <= u32::MAX,
                group > 0,
                group <= bins,
                bins == d.bins_per_frame,
                end == start + bins,
                start == frame_idx * bins,
                end <= d.frames@.len(),
                out@ =~= bar_levels_spec(d.frames@, bins as nat, frame_idx as nat).take(i as int),
            decreases bar_count - i,
        {
            proof {
                assert(i * group + group <= bins) by (nonlinear_arith)
                    requires
                        i < bar_count,
                        bar_count * group <= bins,
                ;
            }
            let lo = start + i * group;
            let mut sum: u32 = 0;
            let mut k: usize = 0;
            while k < group
                invariant
                    k <= group,
                    lo + group <= end,
                    end <= d.frames@.len(),
                    sum == sum_range(d.frames@, lo as int, lo + k),
                    sum <= 255 * k,
                    group * 255 <= u32::MAX,
                decreases group - k,
            {
                sum = sum + d.frames[lo + k] as u32;
                k = k + 1;
            }
            let avg = sum / group as u32;
            out.push(avg);
            i = i + 1;
        }
        out
    }
}

/// The tabs of the visualizer panel.
#[derive(PartialEq, Eq, Structural, Clone, Copy, Debug)]
pub enum VisualizerTab {
    Waveform,
    Spectrum,
    Spectrogram,
    Vectorscope,
}

/// The visualizer tabs in strip order with their labels.
pub open spec fn tabs_spec() -> Seq<(Seq<char>, VisualizerTab)> {
    seq![
        ("waveform"@, VisualizerTab::Waveform),
        ("spectrum"@, VisualizerTab::Spectrum),
        ("spectrogram"@, VisualizerTab::Spectrogram),
        ("vectorscope"@, VisualizerTab::Vectorscope),
    ]
}

/// One button of the visualizer tab strip.
#[derive(Clone, Copy, Debug)]
pub struct TabButton {
    pub label: &'static str,
    pub tab: VisualizerTab,
    pub active: bool,
}

/// The visualizer tab strip: the four tabs in order, the `current` one
/// marked active.
pub fn visualizer_tabs(current: VisualizerTab) -> (r: Vec<TabButton>)
    ensures
        r@.len() == 4,
        forall|i: int|
            0 <= i < 4 ==> (#[trigger] r@[i]).label@ == tabs_spec()[i].0 && r@[i].tab == tabs_spec()[i].1
                && r@[i].active == (tabs_spec()[i].1 == current),
{
    let mut v: Vec<TabButton> = Vec::new();
    v.push(TabButton { label: "waveform", tab: VisualizerTab::Waveform, active: current == VisualizerTab::Waveform });
    v.push(TabButton { label: "spectrum", tab: VisualizerTab::Spectrum, active: current == VisualizerTab::Spectrum });
    v.push(
        TabButton {
            label: "spectrogram",
            tab: VisualizerTab::Spectrogram,
            active: current == VisualizerTab::Spectrogram,
        },
    );
    v.push(
        TabButton {
            label: "vectorscope",
            tab: VisualizerTab::Vectorscope,
            active: current == VisualizerTab::Vectorscope,
        },
    );
    v
}

/// The data load a tab asks for when chosen: the waveform (whose loader
/// also computes the spectrogram), the spectrogram for both spectrum
/// tabs, nothing for the live vectorscope.
pub open spec fn tab_load_spec(tab: VisualizerTab) -> Option<Action> {
    match tab {
        VisualizerTab::Waveform => Some(Action::LoadWaveform),
        VisualizerTab::Spectrum | VisualizerTab::Spectrogram => Some(Action::LoadSpectrogram),
        VisualizerTab::Vectorscope => None,
    }
}

/// The command to run when `tab` is chosen; see `tab_load_spec`.
pub fn tab_load(tab: VisualizerTab) -> (r: Option<Action>)
    ensures
        r == tab_load_spec(tab),
{
    match tab {
        VisualizerTab::Waveform => Some(Action::LoadWaveform),
        VisualizerTab::Spectrum | VisualizerTab::Spectrogram => Some(Action::LoadSpectrogram),
        VisualizerTab::Vectorscope => None,
    }
}

/// What the visualizer panel shows: a message in place of the canvas, or
/// the canvas of its tab.
#[derive(Clone, Copy, Debug)]
pub enum VizPanel {
    Message(&'static str),
    Canvas(VisualizerTab),
}

/// The message the panel shows instead of a canvas, if any. Without a
/// track: "No track loaded". The waveform and the two spectrum tabs need
/// their data, and say it is being generated or missing until it is
/// there; the vectorscope draws live.
pub open spec fn viz_message_spec(
    has_track: bool,
    tab: VisualizerTab,
    has_waveform: bool,
    waveform_generating: bool,
    has_spectrogram: bool,
    spectrogram_generating: bool,
) -> Option<Seq<char>> {
    if !has_track {
        Some("No track loaded"@)
    } else {
        match tab {
            VisualizerTab::Waveform => if has_waveform {
                None
            } else if waveform_generating {
                Some("Generating waveform\u{2026}"@)
            } else {
                Some("No waveform data"@)
            },
            VisualizerTab::Spectrum => if has_spectrogram {
                None
            } else if spectrogram_generating {
                Some("Generating spectrum\u{2026}"@)
            } else {
                Some("No spectrum data"@)
            },
            VisualizerTab::Spectrogram => if has_spectrogram {
                None
            } else if spectrogram_generating {
                Some("Generating spectrogram\u{2026}"@)
            } else {
                Some("No spectrogram data"@)
            },
            VisualizerTab::Vectorscope => None,
        }
    }
}

/// What the visualizer panel shows: the message of `viz_message_spec`,
/// or else the canvas of the tab.
pub fn viz_panel(
    has_track: bool,
    tab: VisualizerTab,
    has_waveform: bool,
    waveform_generating: bool,
    has_spectrogram: bool,
    spectrogram_generating: bool,
) -> (r: VizPanel)
    ensures
        ({
            let m = viz_message_spec(
                has_track,
                tab,
                has_waveform,
                waveform_generating,
                has_spectrogram,
                spectrogram_generating,
            );
            match r {
                VizPanel::Message(a) => m == Some(a@),
                VizPanel::Canvas(t) => m is None && t == tab,
            }
        }),
{
    if !has_track {
        return VizPanel::Message("No track loaded");
    }
    match tab {
        VisualizerTab::Waveform => if has_waveform {
            VizPanel::Canvas(tab)
        } else if waveform_generating {
            VizPanel::Message("Generating waveform\u{2026}")
        } else {
            VizPanel::Message("No waveform data")
        },
        VisualizerTab::Spectrum => if has_spectrogram {
            VizPanel::Canvas(tab)
        } else if spectrogram_generating {
            VizPanel::Message("Generating spectrum\u{2026}")
        } else {
            VizPanel::Message("No spectrum data")
        },
        VisualizerTab::Spectrogram => if has_spectrogram {
            VizPanel::Canvas(tab)
        } else if spectrogram_generating {
            VizPanel::Message("Generating spectrogram\u{2026}")
        } else {
            VizPanel::Message("No spectrogram data")
        },
        VisualizerTab::Vectorscope => VizPanel::Canvas(tab),
    }
}

} // verus!
