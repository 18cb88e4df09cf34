//! The metrics exposition writer: a small stateful text emitter that renders
//! named, typed, labeled metric values into the line-oriented exposition
//! grammar.
//!
//! Per document, `start_metric` opens a block with its `# HELP` and `# TYPE`
//! comment lines — preceded by exactly one blank separator line when a block
//! was already started earlier — and `write_value` emits one value line under
//! the active block.  The writer knows nothing of which metrics exist;
//! callers choose names, help texts, kinds and values.

use vstd::prelude::*;
use vstd::string::StringExecFns;

use crate::decimal::dec_text;
use crate::decimal::Dec;
use crate::sml::ConsumptionData;

verus! {

/// The kind of a metric block.
#[derive(Debug, Clone, Copy, PartialEq, Eq, Structural)]
pub enum MetricKind {
    Gauge,
    Counter,
}

/// The literal kind keyword of the `# TYPE` line.
pub open spec fn kind_text(k: MetricKind) -> Seq<char> {
    match k {
        MetricKind::Gauge => "gauge"@,
        MetricKind::Counter => "counter"@,
    }
}

impl MetricKind {
    pub fn as_str(&self) -> (r: &'static str)
        ensures
            r@ == kind_text(*self),
    {
        match self {
            MetricKind::Gauge => "gauge",
            MetricKind::Counter => "counter",
        }
    }
}

/// The `# HELP <name> <help>` comment line.
pub open spec fn help_line(name: Seq<char>, help: Seq<char>) -> Seq<char> {
    "# HELP "@ + name + " "@ + help + "\n"@
}

/// The `# TYPE <name> <kind>` comment line.
pub open spec fn type_line(name: Seq<char>, kind: MetricKind) -> Seq<char> {
    "# TYPE "@ + name + " "@ + kind_text(kind) + "\n"@
}

/// One rendered `key="value"` label pair.
pub open spec fn label_text(k: Seq<char>, v: Seq<char>) -> Seq<char> {
    k + "=\""@ + v + "\""@
}

/// The label pairs rendered in their given order, joined by commas.
pub open spec fn labels_text(ps: Seq<(Seq<char>, Seq<char>)>) -> Seq<char>
    decreases ps.len(),
{
    if ps.len() == 0 {
        Seq::<char>::empty()
    } else if ps.len() == 1 {
        label_text(ps[0].0, ps[0].1)
    } else {
        label_text(ps[0].0, ps[0].1) + ","@ + labels_text(ps.drop_first())
    }
}

/// The views of a list of owned label pairs.
pub open spec fn labels_view(ls: Seq<(String, String)>) -> Seq<(Seq<char>, Seq<char>)> {
    ls.map_values(|p: (String, String)| (p.0@, p.1@))
}

/// The `<name> {<labels>} <value>` line of one sample.
pub open spec fn value_line(
    name: Seq<char>,
    labels: Seq<(Seq<char>, Seq<char>)>,
    value: Dec,
) -> Seq<char> {
    name + " {"@ + labels_text(labels) + "} "@ + dec_text(value) + "\n"@
}

/// Renders the label pairs from `start` on, commas between them.
fn render_labels_from(labels: &Vec<(String, String)>, start: usize) -> (r: String)
    requires
        start <= labels.len(),
    ensures
        r@ == labels_text(labels_view(labels@).skip(start as int)),
    decreases labels.len() - start,
{
    let ghost ps = labels_view(labels@);
    if start == labels.len() {
        proof {
            assert(ps.skip(start as int) =~= Seq::<(Seq<char>, Seq<char>)>::empty());
        }
        String::new()
    } else {
        let mut s = String::new();
        s.append(labels[start].0.as_str());
        s.append("=\"");
        s.append(labels[start].1.as_str());
        s.append("\"");
        proof {
            assert(ps.skip(start as int)[0] == ps[start as int]);
            assert(s@ =~= label_text(ps[start as int].0, ps[start as int].1));
        }
        if start + 1 < labels.len() {
            s.append(",");
            let rest = render_labels_from(labels, start + 1);
            s.append(rest.as_str());
            proof {
                assert(ps.skip(start as int).drop_first() =~= ps.skip(start as int + 1));
                assert(s@ =~= labels_text(ps.skip(start as int)));
            }
        } else {
            proof {
                assert(ps.skip(start as int).len() == 1);
            }
        }
        s
    }
}

/// The writer: the text accumulated so far, and the name of the active
/// metric block once one was started.
pub struct MetricsWriter {
    out: String,
    current_metric: Option<String>,
}

impl MetricsWriter {
    /// The document text accumulated so far.
    pub closed spec fn text(self) -> Seq<char> {
        self.out@
    }

    /// The name of the active metric block, if one was started.
    pub closed spec fn active(self) -> Option<Seq<char>> {
        match self.current_metric {
            Some(n) => Some(n@),
            None => None,
        }
    }

    /// A fresh writer: empty document, no block started.
    pub fn new() -> (w: MetricsWriter)
        ensures
            w.text() == Seq::<char>::empty(),
            w.active() is None,
    {
        MetricsWriter { out: String::new(), current_metric: None }
    }

    /// Opens a metric block: one blank separator line when a block was
    /// already started, then the `# HELP` and `# TYPE` comment lines.
    /// Records `name` as the active metric.
    pub fn start_metric(&mut self, name: String, help: &str, kind: MetricKind)
        ensures
            final(self).active() == Some(name@),
            final(self).text() == old(self).text() + (if old(self).active() is Some {
                "\n"@
            } else {
                Seq::<char>::empty()
            }) + help_line(name@, help@) + type_line(name@, kind),
    {
        if self.current_metric.is_some() {
            self.out.append("\n");
        }
        self.out.append("# HELP ");
        self.out.append(name.as_str());
        self.out.append(" ");
        self.out.append(help);
        self.out.append("\n");
        self.out.append("# TYPE ");
        self.out.append(name.as_str());
        self.out.append(" ");
        self.out.append(kind.as_str());
        self.out.append("\n");
        proof {
            assert(self.out@ =~= old(self).text() + (if old(self).active() is Some {
                "\n"@
            } else {
                Seq::<char>::empty()
            }) + help_line(name@, help@) + type_line(name@, kind));
        }
        self.current_metric = Some(name);
    }

    /// Emits one sample line under the active metric block.  Calling without
    /// an active block is a caller contract violation, not a runtime input
    /// error.
    pub fn write_value(&mut self, value: Dec, labels: &Vec<(String, String)>)
        requires
            old(self).active() is Some,
            value.wf(),
        ensures
            final(self).active() == old(self).active(),
            final(self).text() == old(self).text() + value_line(
                old(self).active()->Some_0,
                labels_view(labels@),
                value,
            ),
    {
        proof {
            assert(labels_view(labels@).skip(0) =~= labels_view(labels@));
        }
        let label_str = render_labels_from(labels, 0);
        let value_str = value.to_text();
        let name = match &self.current_metric {
            Some(n) => n.clone(),
            None => String::new(),
        };
        self.out.append(name.as_str());
        self.out.append(" {");
        self.out.append(label_str.as_str());
        self.out.append("} ");
        self.out.append(value_str.as_str());
        self.out.append("\n");
        proof {
            assert(self.out@ =~= old(self).text() + value_line(
                old(self).active()->Some_0,
                labels_view(labels@),
                value,
            ));
        }
    }

    /// Yields the accumulated document text.
    pub fn finalize(self) -> (r: String)
        ensures
            r@ == self.text(),
    {
        self.out
    }
}

/// The document this system serves: exactly two metric blocks in fixed
/// order, each with one unlabeled value — the cumulative energy as a
/// counter, then the instantaneous power as a gauge — separated by one blank
/// line, with no trailing blank line.
pub open spec fn consumption_document(c: ConsumptionData) -> Seq<char> {
    help_line("smartmeter_consumption_wh_total"@, "The total consumption value in Wh"@)
        + type_line("smartmeter_consumption_wh_total"@, MetricKind::Counter)
        + value_line("smartmeter_consumption_wh_total"@, Seq::<(Seq<char>, Seq<char>)>::empty(), c.total_consumption_wh)
        + "\n"@
        + help_line("smartmeter_power_w"@, "The current power in W"@)
        + type_line("smartmeter_power_w"@, MetricKind::Gauge)
        + value_line("smartmeter_power_w"@, Seq::<(Seq<char>, Seq<char>)>::empty(), c.current_power_w)
}

/// Renders a snapshot as the two-metric exposition document.
pub fn render_consumption(data: &ConsumptionData) -> (r: String)
    requires
        data.wf(),
    ensures
        r@ == consumption_document(*data),
{
    let no_labels: Vec<(String, String)> = Vec::new();
    let mut w = MetricsWriter::new();
    w.start_metric(
        String::from_str("smartmeter_consumption_wh_total"),
        "The total consumption value in Wh",
        MetricKind::Counter,
    );
    w.write_value(data.total_consumption_wh, &no_labels);
    w.start_metric(String::from_str("smartmeter_power_w"), "The current power in W", MetricKind::Gauge);
    w.write_value(data.current_power_w, &no_labels);
    let r = w.finalize();
    proof {
        assert(labels_view(no_labels@) =~= Seq::<(Seq<char>, Seq<char>)>::empty());
        assert(r@ =~= consumption_document(*data));
    }
    r
}

} // verus!
