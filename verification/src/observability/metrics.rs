//! Operational metrics: named events with sorted labels, and counters keyed
//! by the event's stable text.

use vstd::prelude::*;
use vstd::string::*;
use crate::text::{lemma_seq_less_order, seq_less, str_eq, str_less};

verus! {

/// One label: key and value.
pub type LabelView = (Seq<char>, Seq<char>);

/// Whether the label keys strictly increase.
pub open spec fn labels_sorted(l: Seq<LabelView>) -> bool {
    forall|i: int, j: int| 0 <= i < j < l.len() ==> seq_less(l[i].0, l[j].0)
}

/// `l` with `(k, v)` set: replaced where `k` already is, inserted in key
/// order otherwise.
pub open spec fn insert_label(l: Seq<LabelView>, k: Seq<char>, v: Seq<char>) -> Seq<LabelView>
    decreases l.len(),
{
    if l.len() == 0 {
        seq![(k, v)]
    } else if l[0].0 == k {
        seq![(k, v)] + l.drop_first()
    } else if seq_less(k, l[0].0) {
        seq![(k, v)] + l
    } else {
        seq![l[0]] + insert_label(l.drop_first(), k, v)
    }
}

/// `k=v` pairs joined with `,`.
pub open spec fn labels_text(l: Seq<LabelView>) -> Seq<char>
    decreases l.len(),
{
    if l.len() == 0 {
        Seq::empty()
    } else if l.len() == 1 {
        l[0].0 + "="@ + l[0].1
    } else {
        labels_text(l.drop_last()) + ","@ + l.last().0 + "="@ + l.last().1
    }
}

proof fn lemma_insert_label_sorted(l: Seq<LabelView>, k: Seq<char>, v: Seq<char>)
    requires
        labels_sorted(l),
    ensures
        labels_sorted(insert_label(l, k, v)),
        forall|i: int|
            0 <= i < insert_label(l, k, v).len() ==> (#[trigger] insert_label(l, k, v)[i].0 == k
                || exists|j: int| 0 <= j < l.len() && l[j].0 == insert_label(l, k, v)[i].0),
    decreases l.len(),
{
    let r = insert_label(l, k, v);
    if l.len() == 0 {
    } else if l[0].0 == k {
        assert forall|i: int, j: int| 0 <= i < j < r.len() implies seq_less(r[i].0, r[j].0) by {
            assert(r[i].0 == l[i].0);
            assert(r[j].0 == l[j].0);
        }
        assert forall|i: int| 0 <= i < r.len() implies (#[trigger] r[i].0 == k || exists|j: int|
            0 <= j < l.len() && l[j].0 == r[i].0) by {
            if i > 0 {
                assert(r[i] == l[i]);
            }
        }
    } else if seq_less(k, l[0].0) {
        assert forall|i: int, j: int| 0 <= i < j < r.len() implies seq_less(r[i].0, r[j].0) by {
            if i == 0 {
                assert(r[j] == l[j - 1]);
                if j - 1 > 0 {
                    lemma_seq_less_order(k, l[0].0, l[j - 1].0);
                }
            } else {
                assert(r[i] == l[i - 1]);
                assert(r[j] == l[j - 1]);
            }
        }
        assert forall|i: int| 0 <= i < r.len() implies (#[trigger] r[i].0 == k || exists|j: int|
            0 <= j < l.len() && l[j].0 == r[i].0) by {
            if i > 0 {
                assert(r[i] == l[i - 1]);
            }
        }
    } else {
        let t = l.drop_first();
        assert(labels_sorted(t)) by {
            assert forall|i: int, j: int| 0 <= i < j < t.len() implies seq_less(t[i].0, t[j].0) by {
                assert(t[i] == l[i + 1]);
                assert(t[j] == l[j + 1]);
            }
        }
        lemma_insert_label_sorted(t, k, v);
        let rt = insert_label(t, k, v);
        lemma_seq_less_order(l[0].0, k, k);
        lemma_seq_less_order(k, l[0].0, k);
        assert(seq_less(l[0].0, k));
        assert forall|i: int, j: int| 0 <= i < j < r.len() implies seq_less(r[i].0, r[j].0) by {
            if i == 0 {
                assert(r[j] == rt[j - 1]);
                if rt[j - 1].0 != k {
                    let m = choose|m: int| 0 <= m < t.len() && t[m].0 == rt[j - 1].0;
                    assert(t[m] == l[m + 1]);
                }
            } else {
                assert(r[i] == rt[i - 1]);
                assert(r[j] == rt[j - 1]);
            }
        }
        assert forall|i: int| 0 <= i < r.len() implies (#[trigger] r[i].0 == k || exists|j: int|
            0 <= j < l.len() && l[j].0 == r[i].0) by {
            if i > 0 {
                assert(r[i] == rt[i - 1]);
                if rt[i - 1].0 != k {
                    let m = choose|m: int| 0 <= m < t.len() && t[m].0 == rt[i - 1].0;
                    assert(l[m + 1] == t[m]);
                }
            }
        }
    }
}

proof fn lemma_insert_label_unfold(l: Seq<LabelView>, k: Seq<char>, v: Seq<char>)
    ensures
        l.len() == 0 ==> insert_label(l, k, v) == seq![(k, v)],
        l.len() > 0 && l[0].0 == k ==> insert_label(l, k, v) == seq![(k, v)] + l.drop_first(),
        l.len() > 0 && l[0].0 != k && seq_less(k, l[0].0) ==> insert_label(l, k, v) == seq![(k, v)]
            + l,
        l.len() > 0 && l[0].0 != k && !seq_less(k, l[0].0) ==> insert_label(l, k, v) == seq![l[0]]
            + insert_label(l.drop_first(), k, v),
{
}

/// Setting a label twice keeps the last value: setting `k` to `v1` and
/// then to `v2` gives what setting it to `v2` alone gives.
pub proof fn lemma_label_last_value_wins(l: Seq<LabelView>, k: Seq<char>, v1: Seq<char>, v2: Seq<char>)
    ensures
        insert_label(insert_label(l, k, v1), k, v2) == insert_label(l, k, v2),
    decreases l.len(),
{
    let a = insert_label(l, k, v1);
    lemma_insert_label_unfold(l, k, v1);
    lemma_insert_label_unfold(l, k, v2);
    lemma_insert_label_unfold(a, k, v2);
    if l.len() == 0 {
        assert(a.drop_first() =~= Seq::<LabelView>::empty());
        assert(seq![(k, v2)] + Seq::<LabelView>::empty() =~= seq![(k, v2)]);
    } else if l[0].0 == k {
        assert(a.drop_first() =~= l.drop_first());
    } else if seq_less(k, l[0].0) {
        assert(a.drop_first() =~= l);
    } else {
        let t = l.drop_first();
        lemma_label_last_value_wins(t, k, v1, v2);
        assert(a[0] == l[0]);
        assert(a.drop_first() =~= insert_label(t, k, v1));
    }
}

/// Setting two different labels gives the same labels in either order.
pub proof fn lemma_labels_commute(
    l: Seq<LabelView>,
    k1: Seq<char>,
    v1: Seq<char>,
    k2: Seq<char>,
    v2: Seq<char>,
)
    requires
        k1 != k2,
    ensures
        insert_label(insert_label(l, k1, v1), k2, v2) == insert_label(insert_label(l, k2, v2), k1, v1),
    decreases l.len(),
{
    let a = insert_label(l, k1, v1);
    let b = insert_label(l, k2, v2);
    lemma_seq_less_order(k1, k2, k1);
    lemma_insert_label_unfold(l, k1, v1);
    lemma_insert_label_unfold(l, k2, v2);
    lemma_insert_label_unfold(a, k2, v2);
    lemma_insert_label_unfold(b, k1, v1);
    let p1: LabelView = (k1, v1);
    let p2: LabelView = (k2, v2);
    if l.len() == 0 {
        assert(a.drop_first() =~= Seq::<LabelView>::empty());
        assert(b.drop_first() =~= Seq::<LabelView>::empty());
        lemma_insert_label_unfold(a.drop_first(), k2, v2);
        lemma_insert_label_unfold(b.drop_first(), k1, v1);
        if seq_less(k2, k1) {
            assert(insert_label(a, k2, v2) =~= seq![p2, p1]);
            assert(insert_label(b, k1, v1) =~= seq![p2, p1]);
        } else {
            assert(insert_label(a, k2, v2) =~= seq![p1, p2]);
            assert(insert_label(b, k1, v1) =~= seq![p1, p2]);
        }
    } else {
        let h = l[0].0;
        let t = l.drop_first();
        lemma_seq_less_order(k1, h, k2);
        lemma_seq_less_order(k2, h, k1);
        lemma_seq_less_order(h, k1, k2);
        lemma_seq_less_order(h, k2, k1);
        lemma_seq_less_order(k1, k2, h);
        lemma_seq_less_order(k2, k1, h);
        lemma_insert_label_unfold(t, k1, v1);
        lemma_insert_label_unfold(t, k2, v2);
        if h == k1 {
            assert(a.drop_first() =~= t);
            if seq_less(k2, k1) {
                assert(b.drop_first() =~= l);
                assert(insert_label(a, k2, v2) =~= seq![p2] + a);
                assert(insert_label(b, k1, v1) =~= seq![p2] + a);
            } else {
                assert(b.drop_first() =~= insert_label(t, k2, v2));
                assert(insert_label(a, k2, v2) =~= seq![p1] + insert_label(t, k2, v2));
                assert(insert_label(b, k1, v1) =~= seq![p1] + insert_label(t, k2, v2));
            }
        } else if h == k2 {
            assert(b.drop_first() =~= t);
            if seq_less(k1, k2) {
                assert(a.drop_first() =~= l);
                assert(insert_label(b, k1, v1) =~= seq![p1] + b);
                assert(insert_label(a, k2, v2) =~= seq![p1] + b);
            } else {
                assert(a.drop_first() =~= insert_label(t, k1, v1));
                assert(insert_label(b, k1, v1) =~= seq![p2] + insert_label(t, k1, v1));
                assert(insert_label(a, k2, v2) =~= seq![p2] + insert_label(t, k1, v1));
            }
        } else if seq_less(k1, h) && seq_less(k2, h) {
            assert(a.drop_first() =~= l);
            assert(b.drop_first() =~= l);
            if seq_less(k2, k1) {
                assert(insert_label(a, k2, v2) =~= seq![p2, p1] + l);
                assert(insert_label(b, k1, v1) =~= seq![p2, p1] + l);
            } else {
                assert(insert_label(a, k2, v2) =~= seq![p1, p2] + l);
                assert(insert_label(b, k1, v1) =~= seq![p1, p2] + l);
            }
        } else if seq_less(k1, h) {
            assert(a.drop_first() =~= l);
            assert(b.drop_first() =~= insert_label(t, k2, v2));
            assert(insert_label(a, k2, v2) =~= seq![p1] + b);
            assert(insert_label(b, k1, v1) =~= seq![p1] + b);
        } else if seq_less(k2, h) {
            assert(b.drop_first() =~= l);
            assert(a.drop_first() =~= insert_label(t, k1, v1));
            assert(insert_label(b, k1, v1) =~= seq![p2] + a);
            assert(insert_label(a, k2, v2) =~= seq![p2] + a);
        } else {
            lemma_labels_commute(t, k1, v1, k2, v2);
            assert(a.drop_first() =~= insert_label(t, k1, v1));
            assert(b.drop_first() =~= insert_label(t, k2, v2));
            lemma_insert_label_unfold(insert_label(t, k1, v1), k2, v2);
            lemma_insert_label_unfold(insert_label(t, k2, v2), k1, v1);
            assert(insert_label(a, k2, v2) =~= seq![l[0]] + insert_label(insert_label(t, k1, v1), k2, v2));
            assert(insert_label(b, k1, v1) =~= seq![l[0]] + insert_label(insert_label(t, k2, v2), k1, v1));
        }
    }
}

/// A named metric event with labels kept in key order.
#[derive(Debug, PartialEq, Eq)]
pub struct MetricEvent {
    name: String,
    labels: Vec<(String, String)>,
}

impl MetricEvent {
    #[verifier::type_invariant]
    spec fn sorted(self) -> bool {
        labels_sorted(self.spec_labels())
    }

    /// The event's name.
    pub closed spec fn spec_name(self) -> Seq<char> {
        self.name@
    }

    /// The labels, in key order.
    pub closed spec fn spec_labels(self) -> Seq<LabelView> {
        self.labels@.map_values(|p: (String, String)| (p.0@, p.1@))
    }

    /// The stable text of the event: its name, followed by
    /// `{k1=v1,k2=v2,...}` in key order when it has labels.
    pub open spec fn spec_key(self) -> Seq<char> {
        if self.spec_labels().len() == 0 {
            self.spec_name()
        } else {
            self.spec_name() + "{"@ + labels_text(self.spec_labels()) + "}"@
        }
    }

    /// An event named `name`, without labels.
    pub fn new(name: &str) -> (r: Self)
        ensures
            r.spec_name() == name@,
            r.spec_labels().len() == 0,
    {
        let r = MetricEvent { name: name.to_owned(), labels: Vec::new() };
        assert(r.spec_labels() =~= Seq::<LabelView>::empty());
        r
    }

    /// The event with label `key` set to `value`, replacing any earlier
    /// value of that key.
    pub fn with_label(self, key: &str, value: &str) -> (r: Self)
        ensures
            r.spec_name() == self.spec_name(),
            r.spec_labels() == insert_label(self.spec_labels(), key@, value@),
    {
        proof {
            use_type_invariant(&self);
        }
        let ghost old_labels = self.spec_labels();
        let MetricEvent { name, labels } = self;
        let mut out: Vec<(String, String)> = Vec::new();
        let mut i: usize = 0;
        let mut placed = false;
        let n = labels.len();
        proof {
            assert(old_labels.subrange(0, n as int) =~= old_labels);
            assert(out@.map_values(|p: (String, String)| (p.0@, p.1@)) =~= Seq::<LabelView>::empty());
            assert(Seq::<LabelView>::empty() + insert_label(old_labels, key@, value@) =~= insert_label(
                old_labels,
                key@,
                value@,
            ));
        }
        while i < n
            invariant
                n == labels@.len(),
                i <= n,
                old_labels == labels@.map_values(|p: (String, String)| (p.0@, p.1@)),
                labels_sorted(old_labels),
                !placed ==> out@.map_values(|p: (String, String)| (p.0@, p.1@)) + insert_label(
                    old_labels.subrange(i as int, n as int),
                    key@,
                    value@,
                ) == insert_label(old_labels, key@, value@),
                placed ==> out@.map_values(|p: (String, String)| (p.0@, p.1@)) + old_labels.subrange(
                    i as int,
                    n as int,
                ) == insert_label(old_labels, key@, value@),
            decreases n - i,
        {
            let ghost rest = old_labels.subrange(i as int, n as int);
            let ghost before = out@.map_values(|p: (String, String)| (p.0@, p.1@));
            let k = labels[i].0.clone();
            let v = labels[i].1.clone();
            assert(rest[0] == (k@, v@));
            assert(rest.drop_first() =~= old_labels.subrange(i + 1, n as int));
            if placed {
                out.push((k, v));
                proof {
                    assert(out@.map_values(|p: (String, String)| (p.0@, p.1@)) =~= before.push(
                        rest[0],
                    ));
                    assert(before + rest =~= before.push(rest[0]) + rest.drop_first());
                }
            } else if str_eq(k.as_str(), key) {
                out.push((key.to_owned(), value.to_owned()));
                placed = true;
                proof {
                    assert(out@.map_values(|p: (String, String)| (p.0@, p.1@)) =~= before.push(
                        (key@, value@),
                    ));
                    assert(insert_label(rest, key@, value@) == seq![(key@, value@)]
                        + rest.drop_first());
                    assert(before + (seq![(key@, value@)] + rest.drop_first()) =~= before.push(
                        (key@, value@),
                    ) + rest.drop_first());
                }
            } else if str_less(key, k.as_str()) {
                out.push((key.to_owned(), value.to_owned()));
                out.push((k, v));
                placed = true;
                proof {
                    assert(out@.map_values(|p: (String, String)| (p.0@, p.1@)) =~= before.push(
                        (key@, value@),
                    ).push(rest[0]));
                    assert(insert_label(rest, key@, value@) == seq![(key@, value@)] + rest);
                    assert(before + (seq![(key@, value@)] + rest) =~= before.push((key@, value@)).push(
                        rest[0],
                    ) + rest.drop_first());
                }
            } else {
                out.push((k, v));
                proof {
                    assert(out@.map_values(|p: (String, String)| (p.0@, p.1@)) =~= before.push(
                        rest[0],
                    ));
                    assert(insert_label(rest, key@, value@) == seq![rest[0]] + insert_label(
                        rest.drop_first(),
                        key@,
                        value@,
                    ));
                    assert(before + (seq![rest[0]] + insert_label(rest.drop_first(), key@, value@))
                        =~= before.push(rest[0]) + insert_label(rest.drop_first(), key@, value@));
                }
            }
            i = i + 1;
        }
        let ghost before = out@.map_values(|p: (String, String)| (p.0@, p.1@));
        if !placed {
            out.push((key.to_owned(), value.to_owned()));
            proof {
                assert(old_labels.subrange(n as int, n as int) =~= Seq::<LabelView>::empty());
                assert(out@.map_values(|p: (String, String)| (p.0@, p.1@)) =~= before.push(
                    (key@, value@),
                ));
                assert(before + seq![(key@, value@)] =~= before.push((key@, value@)));
            }
        } else {
            proof {
                assert(old_labels.subrange(n as int, n as int) =~= Seq::<LabelView>::empty());
                assert(before + Seq::<LabelView>::empty() =~= before);
            }
        }
        proof {
            lemma_insert_label_sorted(old_labels, key@, value@);
        }
        let r = MetricEvent { name, labels: out };
        assert(r.spec_labels() == insert_label(old_labels, key@, value@));
        r
    }

    /// The stable text of the event, as `spec_key` states.
    pub fn key(&self) -> (r: String)
        ensures
            r@ == self.spec_key(),
    {
        let ghost l = self.spec_labels();
        let n = self.labels.len();
        if n == 0 {
            return self.name.clone();
        }
        let mut s = self.name.clone();
        s.append("{");
        let ghost head = s@;
        let mut i: usize = 0;
        while i < n
            invariant
                n == self.labels@.len(),
                l == self.spec_labels(),
                l.len() == n,
                i <= n,
                s@ == head + labels_text(l.subrange(0, i as int)),
            decreases n - i,
        {
            if i > 0 {
                s.append(",");
            }
            s.append(self.labels[i].0.as_str());
            s.append("=");
            s.append(self.labels[i].1.as_str());
            proof {
                let p = l.subrange(0, i + 1);
                assert(p.drop_last() =~= l.subrange(0, i as int));
                assert(p.last() == l[i as int]);
                if i == 0 {
                    assert(s@ =~= head + labels_text(p));
                } else {
                    assert(s@ =~= head + labels_text(p));
                }
            }
            i = i + 1;
        }
        s.append("}");
        assert(l.subrange(0, n as int) =~= l);
        assert(s@ =~= self.spec_key());
        s
    }
}

/// `success` or `failure`.
pub open spec fn outcome_text(ok: bool) -> Seq<char> {
    if ok {
        "success"@
    } else {
        "failure"@
    }
}

fn outcome(ok: bool) -> (r: &'static str)
    ensures
        r@ == outcome_text(ok),
{
    if ok {
        "success"
    } else {
        "failure"
    }
}

/// `true` or `false`.
pub open spec fn bool_text(b: bool) -> Seq<char> {
    if b {
        "true"@
    } else {
        "false"@
    }
}

fn bool_str(b: bool) -> (r: &'static str)
    ensures
        r@ == bool_text(b),
{
    if b {
        "true"
    } else {
        "false"
    }
}

/// The empty label list.
pub open spec fn no_labels() -> Seq<LabelView> {
    Seq::empty()
}

impl MetricEvent {
    /// `command_success{command=...}`.
    pub fn command_success(command: &str) -> (r: Self)
        ensures
            r.spec_name() == "command_success"@,
            r.spec_labels() == insert_label(no_labels(), "command"@, command@),
    {
        Self::new("command_success").with_label("command", command)
    }

    /// `command_failure{command=...,error_code=...}`.
    pub fn command_failure(command: &str, error_code: &str) -> (r: Self)
        ensures
            r.spec_name() == "command_failure"@,
            r.spec_labels() == insert_label(
                insert_label(no_labels(), "command"@, command@),
                "error_code"@,
                error_code@,
            ),
    {
        Self::new("command_failure").with_label("command", command).with_label(
            "error_code",
            error_code,
        )
    }

    /// `config_validation{result=...,mode=...}`.
    pub fn config_validation(success: bool, mode: &str) -> (r: Self)
        ensures
            r.spec_name() == "config_validation"@,
            r.spec_labels() == insert_label(
                insert_label(no_labels(), "result"@, outcome_text(success)),
                "mode"@,
                mode@,
            ),
    {
        Self::new("config_validation").with_label("result", outcome(success)).with_label(
            "mode",
            mode,
        )
    }

    /// `risk_decision{result=accepted|rejected}`.
    pub fn risk_decision(accepted: bool) -> (r: Self)
        ensures
            r.spec_name() == "risk_decision"@,
            r.spec_labels() == insert_label(
                no_labels(),
                "result"@,
                if accepted {
                    "accepted"@
                } else {
                    "rejected"@
                },
            ),
    {
        Self::new("risk_decision").with_label(
            "result",
            if accepted {
                "accepted"
            } else {
                "rejected"
            },
        )
    }

    /// `paper_execution{result=executed|rejected}`.
    pub fn paper_execution(executed: bool) -> (r: Self)
        ensures
            r.spec_name() == "paper_execution"@,
            r.spec_labels() == insert_label(
                no_labels(),
                "result"@,
                if executed {
                    "executed"@
                } else {
                    "rejected"@
                },
            ),
    {
        Self::new("paper_execution").with_label(
            "result",
            if executed {
                "executed"
            } else {
                "rejected"
            },
        )
    }

    /// `adapter_result{provider=...,operation=...,result=...}`.
    pub fn adapter_result(provider: &str, operation: &str, success: bool) -> (r: Self)
        ensures
            r.spec_name() == "adapter_result"@,
            r.spec_labels() == insert_label(
                insert_label(insert_label(no_labels(), "provider"@, provider@), "operation"@, operation@),
                "result"@,
                outcome_text(success),
            ),
    {
        Self::new("adapter_result").with_label("provider", provider).with_label(
            "operation",
            operation,
        ).with_label("result", outcome(success))
    }

    /// `audit_append{result=...}`.
    pub fn audit_append(success: bool) -> (r: Self)
        ensures
            r.spec_name() == "audit_append"@,
            r.spec_labels() == insert_label(no_labels(), "result"@, outcome_text(success)),
    {
        Self::new("audit_append").with_label("result", outcome(success))
    }

    /// `health_status{...}` with one `true`/`false` label per readiness flag.
    pub fn health_status(
        config_ready: bool,
        data_ready: bool,
        audit_ready: bool,
        secrets_store_ready: bool,
        providers_ready: bool,
        kill_switch_active: bool,
    ) -> (r: Self)
        ensures
            r.spec_name() == "health_status"@,
            r.spec_labels() == insert_label(
                insert_label(
                    insert_label(
                        insert_label(
                            insert_label(
                                insert_label(no_labels(), "config_ready"@, bool_text(config_ready)),
                                "data_ready"@,
                                bool_text(data_ready),
                            ),
                            "audit_ready"@,
                            bool_text(audit_ready),
                        ),
                        "secrets_store_ready"@,
                        bool_text(secrets_store_ready),
                    ),
                    "providers_ready"@,
                    bool_text(providers_ready),
                ),
                "kill_switch_active"@,
                bool_text(kill_switch_active),
            ),
    {
        Self::new("health_status").with_label("config_ready", bool_str(config_ready)).with_label(
            "data_ready",
            bool_str(data_ready),
        ).with_label("audit_ready", bool_str(audit_ready)).with_label(
            "secrets_store_ready",
            bool_str(secrets_store_ready),
        ).with_label("providers_ready", bool_str(providers_ready)).with_label(
            "kill_switch_active",
            bool_str(kill_switch_active),
        )
    }
}

/// The position of the first entry keyed `k` at or after `i`.
pub open spec fn find_key_from(l: Seq<(Seq<char>, u64)>, k: Seq<char>, i: int) -> Option<int>
    decreases l.len() - i,
{
    if i < 0 || i >= l.len() {
        None
    } else if l[i].0 == k {
        Some(i)
    } else {
        find_key_from(l, k, i + 1)
    }
}

/// The count stored under `k`, if any.
pub open spec fn lookup_count(l: Seq<(Seq<char>, u64)>, k: Seq<char>) -> Option<u64> {
    match find_key_from(l, k, 0) {
        Some(i) => Some(l[i].1),
        None => None,
    }
}

proof fn lemma_find_key_from(l: Seq<(Seq<char>, u64)>, k: Seq<char>, i: int)
    requires
        0 <= i,
    ensures
        match find_key_from(l, k, i) {
            Some(j) => i <= j < l.len() && l[j].0 == k && forall|m: int| i <= m < j ==> l[m].0 != k,
            None => forall|m: int| i <= m < l.len() ==> l[m].0 != k,
        },
    decreases l.len() - i,
{
    if i < l.len() && l[i].0 != k {
        lemma_find_key_from(l, k, i + 1);
    }
}

proof fn lemma_find_key_at(l: Seq<(Seq<char>, u64)>, k: Seq<char>, i: int, j: int)
    requires
        0 <= i <= j < l.len(),
        l[j].0 == k,
        forall|m: int| i <= m < j ==> l[m].0 != k,
    ensures
        find_key_from(l, k, i) == Some(j),
    decreases j - i,
{
    if i < j {
        lemma_find_key_at(l, k, i + 1, j);
    }
}

proof fn lemma_find_key_absent(l: Seq<(Seq<char>, u64)>, k: Seq<char>, i: int)
    requires
        0 <= i,
        forall|m: int| i <= m < l.len() ==> l[m].0 != k,
    ensures
        find_key_from(l, k, i) is None,
    decreases l.len() - i,
{
    if i < l.len() {
        lemma_find_key_absent(l, k, i + 1);
    }
}

/// Counter values by metric key.
#[derive(Debug, PartialEq, Eq)]
pub struct MetricSnapshot {
    entries: Vec<(String, u64)>,
}

impl MetricSnapshot {
    /// The entries as keys and counts.
    pub closed spec fn spec_entries(&self) -> Seq<(Seq<char>, u64)> {
        self.entries@.map_values(|p: (String, u64)| (p.0@, p.1))
    }

    /// The count stored under `key`.
    pub open spec fn spec_get(&self, key: Seq<char>) -> Option<u64> {
        lookup_count(self.spec_entries(), key)
    }

    fn find(&self, key: &str) -> (r: Option<usize>)
        ensures
            match r {
                Some(i) => find_key_from(self.spec_entries(), key@, 0) == Some(i as int) && i
                    < self.entries@.len() && self.spec_entries()[i as int].0 == key@,
                None => find_key_from(self.spec_entries(), key@, 0) is None,
            },
    {
        let ghost l = self.spec_entries();
        let mut i: usize = 0;
        while i < self.entries.len()
            invariant
                l == self.spec_entries(),
                l.len() == self.entries@.len(),
                i <= l.len(),
                find_key_from(l, key@, 0) == find_key_from(l, key@, i as int),
            decreases l.len() - i,
        {
            if str_eq(self.entries[i].0.as_str(), key) {
                assert(l[i as int].0 == key@);
                return Some(i);
            }
            i = i + 1;
        }
        None
    }

    /// The count stored under `key`, if any.
    pub fn get(&self, key: &str) -> (r: Option<u64>)
        ensures
            r == self.spec_get(key@),
    {
        proof {
            lemma_find_key_from(self.spec_entries(), key@, 0);
        }
        match self.find(key) {
            Some(i) => {
                assert(self.spec_entries()[i as int].1 == self.entries@[i as int].1);
                Some(self.entries[i].1)
            },
            None => None,
        }
    }

    /// Whether a count is stored under `key`.
    pub fn contains_key(&self, key: &str) -> (r: bool)
        ensures
            r == self.spec_get(key@) is Some,
    {
        self.find(key).is_some()
    }

    /// The number of keys.
    pub fn len(&self) -> (r: usize)
        ensures
            r == self.spec_entries().len(),
    {
        self.entries.len()
    }
}

/// Counts of recorded metric events, by key.
#[derive(Debug)]
pub struct MetricRegistry {
    counts: MetricSnapshot,
}

impl MetricRegistry {
    /// The count recorded under `key`.
    pub closed spec fn spec_count(&self, key: Seq<char>) -> Option<u64> {
        self.counts.spec_get(key)
    }

    /// An empty registry.
    pub fn new() -> (r: Self)
        ensures
            forall|k: Seq<char>| r.spec_count(k) is None,
    {
        let r = MetricRegistry { counts: MetricSnapshot { entries: Vec::new() } };
        proof {
            assert forall|k: Seq<char>| r.spec_count(k) is None by {
                lemma_find_key_absent(r.counts.spec_entries(), k, 0);
            }
        }
        r
    }

    /// Whether one more event with this key can be counted.
    pub open spec fn spec_can_record(&self, key: Seq<char>) -> bool {
        match self.spec_count(key) {
            Some(c) => c < u64::MAX,
            None => true,
        }
    }

    /// Counts one occurrence of `event` under its key; other counts stay.
    pub fn record(&mut self, event: &MetricEvent)
        requires
            old(self).spec_can_record(event.spec_key()),
        ensures
            final(self).spec_count(event.spec_key()) == Some(
                match old(self).spec_count(event.spec_key()) {
                    Some(c) => (c + 1) as u64,
                    None => 1u64,
                },
            ),
            forall|k: Seq<char>|
                k != event.spec_key() ==> final(self).spec_count(k) == old(self).spec_count(k),
    {
        let key = event.key();
        let ghost l = self.counts.spec_entries();
        proof {
            lemma_find_key_from(l, key@, 0);
        }
        match self.counts.find(key.as_str()) {
            Some(i) => {
                let c = self.counts.entries[i].1;
                assert(l[i as int].1 == c);
                self.counts.entries.set(i, (key, c + 1));
                proof {
                    let l2 = self.counts.spec_entries();
                    assert(l2 =~= l.update(i as int, (event.spec_key(), (c + 1) as u64)));
                    lemma_find_key_at(l2, event.spec_key(), 0, i as int);
                    assert forall|k: Seq<char>| k != event.spec_key() implies self.spec_count(k)
                        == old(self).spec_count(k) by {
                        lemma_find_key_from(l, k, 0);
                        match find_key_from(l, k, 0) {
                            Some(j) => {
                                assert(j != i);
                                assert(l2[j] == l[j]);
                                lemma_find_key_at(l2, k, 0, j);
                            },
                            None => {
                                lemma_find_key_absent(l2, k, 0);
                            },
                        }
                    }
                }
            },
            None => {
                self.counts.entries.push((key, 1));
                proof {
                    let l2 = self.counts.spec_entries();
                    assert(l2 =~= l.push((event.spec_key(), 1u64)));
                    lemma_find_key_at(l2, event.spec_key(), 0, l.len() as int);
                    assert forall|k: Seq<char>| k != event.spec_key() implies self.spec_count(k)
                        == old(self).spec_count(k) by {
                        lemma_find_key_from(l, k, 0);
                        match find_key_from(l, k, 0) {
                            Some(j) => {
                                lemma_find_key_at(l2, k, 0, j);
                            },
                            None => {
                                lemma_find_key_absent(l2, k, 0);
                            },
                        }
                    }
                }
            },
        }
    }

    /// The count recorded under `key`, if any.
    pub fn count(&self, key: &str) -> (r: Option<u64>)
        ensures
            r == self.spec_count(key@),
    {
        self.counts.get(key)
    }

    /// A copy of every count.
    pub fn snapshot(&self) -> (r: MetricSnapshot)
        ensures
            forall|k: Seq<char>| r.spec_get(k) == self.spec_count(k),
    {
        let mut entries: Vec<(String, u64)> = Vec::new();
        let mut i: usize = 0;
        let ghost l = self.counts.spec_entries();
        while i < self.counts.entries.len()
            invariant
                l == self.counts.spec_entries(),
                l.len() == self.counts.entries@.len(),
                i <= l.len(),
                entries@.map_values(|p: (String, u64)| (p.0@, p.1)) == l.subrange(0, i as int),
            decreases l.len() - i,
        {
            let k = self.counts.entries[i].0.clone();
            let c = self.counts.entries[i].1;
            entries.push((k, c));
            assert(l[i as int] == (k@, c));
            assert(l.subrange(0, i + 1) =~= l.subrange(0, i as int).push(l[i as int]));
            i = i + 1;
            assert(entries@.map_values(|p: (String, u64)| (p.0@, p.1)) =~= l.subrange(0, i as int));
        }
        let r = MetricSnapshot { entries };
        assert(r.spec_entries() =~= l);
        r
    }

    /// Forgets every count.
    pub fn reset(&mut self)
        ensures
            forall|k: Seq<char>| final(self).spec_count(k) is None,
    {
        self.counts.entries = Vec::new();
        proof {
            assert forall|k: Seq<char>| self.spec_count(k) is None by {
                lemma_find_key_absent(self.counts.spec_entries(), k, 0);
            }
        }
    }
}

/// Counts one occurrence of `event` in `registry`.
pub fn record_metric(registry: &mut MetricRegistry, event: MetricEvent)
    requires
        old(registry).spec_can_record(event.spec_key()),
    ensures
        final(registry).spec_count(event.spec_key()) == Some(
            match old(registry).spec_count(event.spec_key()) {
                Some(c) => (c + 1) as u64,
                None => 1u64,
            },
        ),
        forall|k: Seq<char>|
            k != event.spec_key() ==> final(registry).spec_count(k) == old(registry).spec_count(k),
{
    registry.record(&event)
}

/// A copy of every count in `registry`.
pub fn snapshot_metrics(registry: &MetricRegistry) -> (r: MetricSnapshot)
    ensures
        forall|k: Seq<char>| r.spec_get(k) == registry.spec_count(k),
{
    registry.snapshot()
}

/// Forgets every count in `registry`.
pub fn reset_metrics_for_test(registry: &mut MetricRegistry)
    ensures
        forall|k: Seq<char>| final(registry).spec_count(k) is None,
{
    registry.reset()
}

/// Labels set on an event in either order give the same key: where `e1`
/// is `base` with `k1 = v1` then `k2 = v2` set, and `e2` is `base` with the
/// two set the other way round (as `with_label` states), their keys agree.
pub proof fn lemma_event_label_order_irrelevant(
    base: MetricEvent,
    e1: MetricEvent,
    e2: MetricEvent,
    k1: Seq<char>,
    v1: Seq<char>,
    k2: Seq<char>,
    v2: Seq<char>,
)
    requires
        k1 != k2,
        e1.spec_name() == base.spec_name(),
        e2.spec_name() == base.spec_name(),
        e1.spec_labels() == insert_label(insert_label(base.spec_labels(), k1, v1), k2, v2),
        e2.spec_labels() == insert_label(insert_label(base.spec_labels(), k2, v2), k1, v1),
    ensures
        e1.spec_labels() == e2.spec_labels(),
        e1.spec_key() == e2.spec_key(),
{
    lemma_labels_commute(base.spec_labels(), k1, v1, k2, v2);
}

/// A label set twice keeps its last value: where `e1` is `base` with
/// `k = v1` then `k = v2` set, and `e2` is `base` with `k = v2` set, their
/// keys agree.
pub proof fn lemma_event_label_last_wins(
    base: MetricEvent,
    e1: MetricEvent,
    e2: MetricEvent,
    k: Seq<char>,
    v1: Seq<char>,
    v2: Seq<char>,
)
    requires
        e1.spec_name() == base.spec_name(),
        e2.spec_name() == base.spec_name(),
        e1.spec_labels() == insert_label(insert_label(base.spec_labels(), k, v1), k, v2),
        e2.spec_labels() == insert_label(base.spec_labels(), k, v2),
    ensures
        e1.spec_labels() == e2.spec_labels(),
        e1.spec_key() == e2.spec_key(),
{
    lemma_label_last_value_wins(base.spec_labels(), k, v1, v2);
}

/// One more count under `key`: one where there was none.
pub open spec fn spec_bumped(count: Option<u64>) -> Option<u64> {
    match count {
        Some(c) => Some((c + 1) as u64),
        None => Some(1u64),
    }
}

/// Recording an event changes the snapshot only under the event's key, by
/// one: where `r1` is `r0` after `record_metric` of an event with key `key`
/// (as its contract states) and `s0`, `s1` are snapshots of `r0`, `r1`, `s1`
/// holds `s0`'s count under `key` plus one (one where it had none), and
/// `s0`'s count under every other key.
pub proof fn lemma_snapshot_after_record(
    r0: MetricRegistry,
    r1: MetricRegistry,
    key: Seq<char>,
    s0: MetricSnapshot,
    s1: MetricSnapshot,
)
    requires
        r1.spec_count(key) == spec_bumped(r0.spec_count(key)),
        forall|k: Seq<char>| k != key ==> r1.spec_count(k) == r0.spec_count(k),
        forall|k: Seq<char>| s0.spec_get(k) == r0.spec_count(k),
        forall|k: Seq<char>| s1.spec_get(k) == r1.spec_count(k),
    ensures
        s1.spec_get(key) == spec_bumped(s0.spec_get(key)),
        forall|k: Seq<char>| k != key ==> #[trigger] s1.spec_get(k) == s0.spec_get(k),
{
}

} // verus!
