//! The display strategies: composing labels and formatted values into
//! terminal lines.
//!
//! Both strategies compute a column width from the longest configured label,
//! execute the probe list in configured order, and turn each outcome into
//! zero or more lines. The failure policy is: a probe error skips that
//! label's lines entirely; the surrounding entries are unaffected. Rendering
//! produces plain text lines; printing them (and any colouring) is the
//! caller's concern.

use vstd::prelude::*;
use vstd::string::*;
use crate::config::{
    probes_view, MacchinaRendererConfig, NeofetchRendererConfig, ProbeConfig,
};
use crate::format::{spec_format, format_value, FormatStyle};
use crate::numtext::{pad_chars, pad_text, repeat_chars, repeat_text};
use crate::platform::Platform;
use crate::probe::{
    result_views, run_probe, spec_outcome, MetricView, ProbeError, ProbeList, ProbeResultValue,
    ProbeType, ProbeValue,
};

verus! {

/// A list of owned texts reduced to its model.
pub open spec fn texts_view(v: Seq<String>) -> Seq<Seq<char>> {
    v.map_values(|s: String| s@)
}

/// A probe list reduced to its model: kind and label text per entry.
pub open spec fn entries_view(entries: Seq<(String, ProbeType)>) -> Seq<(ProbeType, Seq<char>)> {
    entries.map_values(|e: (String, ProbeType)| (e.1, e.0@))
}

/// `a + b`, saturating at the largest machine size.
pub open spec fn sat_add(a: int, b: int) -> int {
    if a + b > usize::MAX as int {
        usize::MAX as int
    } else {
        a + b
    }
}

fn sat_add_usize(a: usize, b: usize) -> (r: usize)
    ensures
        r as int == sat_add(a as int, b as int),
{
    if a <= usize::MAX - b {
        a + b
    } else {
        usize::MAX
    }
}

/// The length of the longest label, 0 for an empty list.
pub open spec fn max_label_len(probes: Seq<(ProbeType, Seq<char>)>) -> int
    decreases probes.len(),
{
    if probes.len() == 0 {
        0
    } else {
        let rest = max_label_len(probes.drop_last());
        let last = probes.last().1.len() as int;
        if last > rest {
            last
        } else {
            rest
        }
    }
}

/// The neofetch label column: longest label plus a three-space margin.
pub open spec fn neofetch_width(probes: Seq<(ProbeType, Seq<char>)>) -> int {
    sat_add(max_label_len(probes), 3)
}

/// The macchina label column: longest label plus a two-space margin, and
/// never narrower than twelve characters.
pub open spec fn macchina_width(probes: Seq<(ProbeType, Seq<char>)>) -> int {
    let w = sat_add(max_label_len(probes), 2);
    if w < 12 {
        12
    } else {
        w
    }
}

/// One rendered line: the label padded to the column, the style's
/// separator, then the formatted value.
pub open spec fn spec_entry_line(
    style: FormatStyle,
    width: int,
    label: Seq<char>,
    m: MetricView,
) -> Seq<char> {
    match style {
        FormatStyle::Neofetch => pad_chars(label, width) + ": "@ + spec_format(style, m),
        FormatStyle::Macchina => pad_chars(label, width) + "-  "@ + spec_format(style, m),
    }
}

/// The lines one configured entry owes: none on a probe error (the skip
/// policy), one per value otherwise — a `Multiple` outcome is never merged.
pub open spec fn entry_lines(
    style: FormatStyle,
    width: int,
    label: Seq<char>,
    kind: ProbeType,
    p: Platform,
) -> Seq<Seq<char>> {
    match spec_outcome(kind, p) {
        Ok(ms) => ms.map_values(|m: MetricView| spec_entry_line(style, width, label, m)),
        Err(_) => Seq::empty(),
    }
}

/// The body of a render pass: each entry's lines, in configured order.
pub open spec fn body_lines(
    style: FormatStyle,
    width: int,
    probes: Seq<(ProbeType, Seq<char>)>,
    p: Platform,
) -> Seq<Seq<char>>
    decreases probes.len(),
{
    if probes.len() == 0 {
        Seq::empty()
    } else {
        body_lines(style, width, probes.drop_last(), p) + entry_lines(
            style,
            width,
            probes.last().1,
            probes.last().0,
            p,
        )
    }
}

/// An entry whose probe fails contributes nothing and changes nothing: the
/// body of a probe list with a failing entry removed is the body of the
/// whole list. One probe's failure is isolated from its siblings.
pub proof fn lemma_failure_isolated(
    style: FormatStyle,
    width: int,
    probes: Seq<(ProbeType, Seq<char>)>,
    i: int,
    p: Platform,
)
    requires
        0 <= i < probes.len(),
        spec_outcome(probes[i].0, p) is Err,
    ensures
        body_lines(style, width, probes, p) == body_lines(style, width, probes.remove(i), p),
    decreases probes.len(),
{
    if i == probes.len() - 1 {
        assert(entry_lines(style, width, probes.last().1, probes.last().0, p) =~= Seq::empty());
        assert(probes.remove(i) =~= probes.drop_last());
        assert(body_lines(style, width, probes, p) =~= body_lines(
            style,
            width,
            probes.drop_last(),
            p,
        ));
    } else {
        lemma_failure_isolated(style, width, probes.drop_last(), i, p);
        assert(probes.remove(i).drop_last() =~= probes.drop_last().remove(i));
        assert(probes.remove(i).last() == probes.last());
    }
}

proof fn lemma_texts_view_push(s: Seq<String>, x: String)
    ensures
        texts_view(s.push(x)) == texts_view(s).push(x@),
{
    assert(texts_view(s.push(x)) =~= texts_view(s).push(x@));
}

/// Builds one rendered line.
fn make_line(style: FormatStyle, width: usize, label: &String, v: &ProbeValue) -> (r: String)
    ensures
        r@ == spec_entry_line(style, width as int, label@, v@),
{
    let mut r = pad_text(label.as_str(), width);
    match style {
        FormatStyle::Neofetch => r.append(": "),
        FormatStyle::Macchina => r.append("-  "),
    }
    let val = format_value(style, v);
    r.append(val.as_str());
    r
}

/// Executes the probe list in order and renders the body lines: probes that
/// fail are skipped, a `Multiple` outcome yields one line per value under
/// the shared label.
fn render_body(
    style: FormatStyle,
    width: usize,
    entries: &ProbeList,
    platform: &Platform,
) -> (lines: Vec<String>)
    ensures
        texts_view(lines@) == body_lines(style, width as int, entries_view(entries@), *platform),
{
    let ghost ev = entries_view(entries@);
    let mut lines: Vec<String> = Vec::new();
    let mut i: usize = 0;
    while i < entries.len()
        invariant
            i <= entries@.len(),
            ev == entries_view(entries@),
            texts_view(lines@) == body_lines(
                style,
                width as int,
                ev.subrange(0, i as int),
                *platform,
            ),
        decreases entries@.len() - i,
    {
        proof {
            assert(ev.subrange(0, i + 1 as int).drop_last() =~= ev.subrange(0, i as int));
            assert(ev.subrange(0, i + 1 as int).last() == ev[i as int]);
        }
        let ghost base = texts_view(lines@);
        let ghost own = entry_lines(style, width as int, ev[i as int].1, ev[i as int].0, *platform);
        let entry = &entries[i];
        let outcome = run_probe(entry.1, platform);
        match outcome {
            Err(_) => {
                proof {
                    assert(texts_view(lines@) =~= base + own);
                }
            },
            Ok(ProbeResultValue::Single(v)) => {
                let line = make_line(style, width, &entry.0, &v);
                lines.push(line);
                proof {
                    assert(texts_view(lines@) =~= base + own);
                }
            },
            Ok(ProbeResultValue::Multiple(vs)) => {
                proof {
                    assert(own =~= vs@.map_values(|v: ProbeValue| v@).map_values(
                        |m: MetricView| spec_entry_line(style, width as int, ev[i as int].1, m),
                    ));
                }
                let mut k: usize = 0;
                while k < vs.len()
                    invariant
                        k <= vs@.len(),
                        ev == entries_view(entries@),
                        own == vs@.map_values(|v: ProbeValue| v@).map_values(
                            |m: MetricView| spec_entry_line(
                                style,
                                width as int,
                                ev[i as int].1,
                                m,
                            ),
                        ),
                        entry == entries@[i as int],
                        0 <= i < entries@.len(),
                        texts_view(lines@) == base + own.subrange(0, k as int),
                    decreases vs@.len() - k,
                {
                    proof {
                        assert(ev[i as int] == (entries@[i as int].1, entries@[i as int].0@));
                        assert(vs@.map_values(|v: ProbeValue| v@)[k as int] == vs@[k as int]@);
                        assert(own[k as int] == spec_entry_line(
                            style,
                            width as int,
                            ev[i as int].1,
                            vs@[k as int]@,
                        ));
                    }
                    let line = make_line(style, width, &entry.0, &vs[k]);
                    proof {
                        assert(line@ == own[k as int]);
                        lemma_texts_view_push(lines@, line);
                    }
                    lines.push(line);
                    proof {
                        assert(texts_view(lines@) =~= base + own.subrange(0, k + 1 as int));
                    }
                    k = k + 1;
                }
                proof {
                    assert(own.subrange(0, vs@.len() as int) =~= own);
                }
            },
        }
        i = i + 1;
    }
    proof {
        assert(ev.subrange(0, entries@.len() as int) =~= ev);
    }
    lines
}

/// A successful outcome is rendered one line per value: a `Multiple`
/// outcome of n values yields exactly n lines under its one label, never
/// fewer — multiplicity is never collapsed silently.
pub proof fn lemma_multiple_not_collapsed(
    style: FormatStyle,
    width: int,
    label: Seq<char>,
    kind: ProbeType,
    p: Platform,
)
    requires
        spec_outcome(kind, p) is Ok,
    ensures
        entry_lines(style, width, label, kind, p).len() == spec_outcome(kind, p)->Ok_0.len(),
{
}

/// Resolves each configured entry to its `(label, probe)` binding, in
/// configured order. Total: every entry resolves.
pub fn resolve_probes(probes: &Vec<ProbeConfig>) -> (entries: ProbeList)
    ensures
        entries_view(entries@) == probes_view(probes@),
{
    let mut entries: ProbeList = Vec::new();
    let mut i: usize = 0;
    while i < probes.len()
        invariant
            i <= probes@.len(),
            entries@.len() == i,
            forall|j: int|
                0 <= j < i ==> (#[trigger] entries@[j]).1 == probes@[j]@.0 && entries@[j].0@
                    == probes@[j]@.1,
        decreases probes@.len() - i,
    {
        entries.push(probes[i].get_funcs());
        i = i + 1;
    }
    proof {
        assert(entries_view(entries@) =~= probes_view(probes@));
    }
    entries
}

/// The length of the longest label in the probe list.
fn max_label_width(entries: &ProbeList) -> (w: usize)
    ensures
        w as int == max_label_len(entries_view(entries@)),
{
    let ghost ev = entries_view(entries@);
    let mut w: usize = 0;
    let mut i: usize = 0;
    while i < entries.len()
        invariant
            i <= entries@.len(),
            ev == entries_view(entries@),
            w as int == max_label_len(ev.subrange(0, i as int)),
        decreases entries@.len() - i,
    {
        proof {
            assert(ev.subrange(0, i + 1 as int).drop_last() =~= ev.subrange(0, i as int));
            assert(ev.subrange(0, i + 1 as int).last() == ev[i as int]);
            assert(ev[i as int] == (entries@[i as int].1, entries@[i as int].0@));
        }
        let l = entries[i].0.as_str().unicode_len();
        if l > w {
            w = l;
        }
        i = i + 1;
    }
    proof {
        assert(ev.subrange(0, entries@.len() as int) =~= ev);
    }
    w
}

/// The full neofetch-style output for a configuration and a snapshot: the
/// optional `username@hostname` title and its optional underline, then the
/// body. When the title is wanted and either readout fails, the whole pass
/// fails with that error (the username's error first); with the title off
/// the underline degrades to an empty line. Column arithmetic saturates at
/// the machine limit.
pub open spec fn spec_neofetch_render(c: NeofetchRendererConfig, p: Platform) -> Result<
    Seq<Seq<char>>,
    ProbeError,
> {
    let pv = probes_view(c.probes@);
    let body = body_lines(FormatStyle::Neofetch, neofetch_width(pv), pv, p);
    if c.title {
        match (p.username, p.hostname) {
            (Ok(u), Ok(h)) => {
                let head = if c.underline {
                    seq![
                        u@ + "@"@ + h@,
                        repeat_chars(
                            "-"@,
                            sat_add(sat_add(u@.len() as int, h@.len() as int), 1),
                        ),
                    ]
                } else {
                    seq![u@ + "@"@ + h@]
                };
                Ok(head + body)
            },
            (Err(e), _) => Err(e),
            (_, Err(e)) => Err(e),
        }
    } else {
        let head: Seq<Seq<char>> = if c.underline {
            seq![Seq::<char>::empty()]
        } else {
            Seq::empty()
        };
        Ok(head + body)
    }
}

/// The neofetch-style display strategy.
pub struct NeofetchRenderer {
    pub config: NeofetchRendererConfig,
}

impl NeofetchRenderer {
    pub fn new(config: NeofetchRendererConfig) -> (r: Self)
        ensures
            r.config == config,
    {
        NeofetchRenderer { config }
    }

    /// Runs the configured probes and lays the pass out as plain text
    /// lines, exactly as [`spec_neofetch_render`] describes.
    pub fn render(&self, platform: &Platform) -> (r: Result<Vec<String>, ProbeError>)
        ensures
            r matches Ok(lines) ==> spec_neofetch_render(self.config, *platform) == Ok::<
                Seq<Seq<char>>,
                ProbeError,
            >(texts_view(lines@)),
            r matches Err(e) ==> spec_neofetch_render(self.config, *platform) == Err::<
                Seq<Seq<char>>,
                ProbeError,
            >(e),
    {
        let ghost pv = probes_view(self.config.probes@);
        let entries = resolve_probes(&self.config.probes);
        let maxw = max_label_width(&entries);
        let width = sat_add_usize(maxw, 3);
        let mut lines: Vec<String> = Vec::new();
        if self.config.title {
            match (&platform.username, &platform.hostname) {
                (Ok(u), Ok(h)) => {
                    let ulen = u.as_str().unicode_len();
                    let hlen = h.as_str().unicode_len();
                    let mut t = u.clone();
                    t.append("@");
                    t.append(h.as_str());
                    proof {
                        lemma_texts_view_push(lines@, t);
                    }
                    lines.push(t);
                    if self.config.underline {
                        let dashes = repeat_text("-", sat_add_usize(sat_add_usize(ulen, hlen), 1));
                        proof {
                            lemma_texts_view_push(lines@, dashes);
                        }
                        lines.push(dashes);
                        proof {
                            assert(texts_view(lines@) =~= seq![
                                u@ + "@"@ + h@,
                                repeat_chars(
                                    "-"@,
                                    sat_add(sat_add(u@.len() as int, h@.len() as int), 1),
                                ),
                            ]);
                        }
                    } else {
                        proof {
                            assert(texts_view(lines@) =~= seq![u@ + "@"@ + h@]);
                        }
                    }
                },
                (Err(e), _) => {
                    return Err(e.clone());
                },
                (_, Err(e)) => {
                    return Err(e.clone());
                },
            }
        } else {
            if self.config.underline {
                let empty_line = String::new();
                proof {
                    lemma_texts_view_push(lines@, empty_line);
                }
                lines.push(empty_line);
                proof {
                    assert(texts_view(lines@) =~= seq![Seq::<char>::empty()]);
                }
            } else {
                proof {
                    assert(texts_view(lines@) =~= Seq::<Seq<char>>::empty());
                }
            }
        }
        let ghost head = texts_view(lines@);
        let mut body = render_body(FormatStyle::Neofetch, width, &entries, platform);
        let ghost bv = texts_view(body@);
        lines.append(&mut body);
        proof {
            assert(entries_view(entries@) == pv);
            assert(width as int == neofetch_width(pv));
            assert(bv == body_lines(FormatStyle::Neofetch, neofetch_width(pv), pv, *platform));
            assert(texts_view(lines@) =~= head + bv);
            assert(spec_neofetch_render(self.config, *platform) == Ok::<
                Seq<Seq<char>>,
                ProbeError,
            >(head + bv));
        }
        Ok(lines)
    }
}

/// The art column for final line `k` of a macchina-style pass: the `k`-th
/// art row while rows remain, afterwards a blank filler of the first row's
/// width, each followed by a four-space gap; nothing when there is no art.
pub open spec fn art_prefix(art: Seq<Seq<char>>, k: int) -> Seq<char> {
    if art.len() == 0 {
        Seq::empty()
    } else if k < art.len() {
        art[k] + "    "@
    } else {
        repeat_chars(" "@, art[0].len() as int) + "    "@
    }
}

/// The full macchina-style output for a configuration, a snapshot and an
/// ASCII-art block: a blank line, each body line paired with one art row
/// (art consumed top-to-bottom, blank filler once exhausted), any art rows
/// left over, and a final blank line.
pub open spec fn spec_macchina_render(
    c: MacchinaRendererConfig,
    p: Platform,
    art: Seq<Seq<char>>,
) -> Seq<Seq<char>> {
    let pv = probes_view(c.probes@);
    let body = body_lines(FormatStyle::Macchina, macchina_width(pv), pv, p);
    let paired = Seq::new(body.len(), |k: int| art_prefix(art, k) + body[k]);
    let leftover: Seq<Seq<char>> = if body.len() < art.len() {
        art.subrange(body.len() as int, art.len() as int)
    } else {
        Seq::empty()
    };
    seq![Seq::<char>::empty()] + paired + leftover + seq![Seq::<char>::empty()]
}

/// The macchina-style display strategy.
pub struct MacchinaRenderer {
    pub config: MacchinaRendererConfig,
}

impl MacchinaRenderer {
    pub fn new(config: MacchinaRendererConfig) -> (r: Self)
        ensures
            r.config == config,
    {
        MacchinaRenderer { config }
    }

    /// Runs the configured probes and lays the pass out as plain text
    /// lines paired with the given ASCII-art rows, exactly as
    /// [`spec_macchina_render`] describes. Never fails: probe errors skip
    /// their lines.
    pub fn render(&self, platform: &Platform, art: &Vec<String>) -> (lines: Vec<String>)
        ensures
            texts_view(lines@) == spec_macchina_render(self.config, *platform, texts_view(art@)),
    {
        let ghost pv = probes_view(self.config.probes@);
        let ghost av = texts_view(art@);
        let entries = resolve_probes(&self.config.probes);
        let maxw = max_label_width(&entries);
        let w2 = sat_add_usize(maxw, 2);
        let width = if w2 < 12 {
            12
        } else {
            w2
        };
        let body = render_body(FormatStyle::Macchina, width, &entries, platform);
        let ghost bv = texts_view(body@);
        let ghost paired = Seq::new(bv.len(), |k: int| art_prefix(av, k) + bv[k]);
        let filler: String = if art.len() > 0 {
            repeat_text(" ", art[0].as_str().unicode_len())
        } else {
            String::new()
        };
        let mut lines: Vec<String> = Vec::new();
        let blank = String::new();
        proof {
            lemma_texts_view_push(lines@, blank);
        }
        lines.push(blank);
        let mut k: usize = 0;
        while k < body.len()
            invariant
                k <= body@.len(),
                av == texts_view(art@),
                bv == texts_view(body@),
                paired == Seq::new(bv.len(), |k: int| art_prefix(av, k) + bv[k]),
                art@.len() > 0 ==> filler@ == repeat_chars(" "@, av[0].len() as int),
                texts_view(lines@) == seq![Seq::<char>::empty()] + paired.subrange(0, k as int),
            decreases body@.len() - k,
        {
            let mut l: String;
            if art.len() == 0 {
                l = body[k].clone();
            } else if k < art.len() {
                l = art[k].clone();
                l.append("    ");
                l.append(body[k].as_str());
            } else {
                l = filler.clone();
                l.append("    ");
                l.append(body[k].as_str());
            }
            proof {
                assert(l@ =~= paired[k as int]);
                lemma_texts_view_push(lines@, l);
            }
            lines.push(l);
            proof {
                assert(texts_view(lines@) =~= seq![Seq::<char>::empty()] + paired.subrange(
                    0,
                    k + 1 as int,
                ));
            }
            k = k + 1;
        }
        proof {
            assert(paired.subrange(0, body@.len() as int) =~= paired);
        }
        let ghost base = seq![Seq::<char>::empty()] + paired;
        if body.len() < art.len() {
            let mut a: usize = body.len();
            while a < art.len()
                invariant
                    body@.len() <= a <= art@.len(),
                    av == texts_view(art@),
                    bv == texts_view(body@),
                    base == seq![Seq::<char>::empty()] + paired,
                    texts_view(lines@) == base + av.subrange(bv.len() as int, a as int),
                decreases art@.len() - a,
            {
                let row = art[a].clone();
                proof {
                    lemma_texts_view_push(lines@, row);
                }
                lines.push(row);
                proof {
                    assert(texts_view(lines@) =~= base + av.subrange(
                        bv.len() as int,
                        a + 1 as int,
                    ));
                }
                a = a + 1;
            }
        }
        let blank2 = String::new();
        proof {
            lemma_texts_view_push(lines@, blank2);
        }
        lines.push(blank2);
        proof {
            assert(texts_view(lines@) =~= spec_macchina_render(self.config, *platform, av));
        }
        lines
    }
}

} // verus!
