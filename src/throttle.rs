use vstd::prelude::*;

use crate::ratio::{lemma_same_value_same_order, lemma_same_value_same_percent, Ratio};

verus! {

/// Whether an observation of `current` free space, with `previous` as the
/// last recorded observation, warrants a new alert.
///
/// No alert while `current` is at or above `threshold`. Below it, an alert
/// fires only when the whole-percent value has dropped since `previous`.
pub open spec fn alert_due(current: Ratio, threshold: Ratio, previous: Ratio) -> bool {
    current.lt(threshold) && current.whole_percent() < previous.whole_percent()
}

/// Decides whether to send an alert for `percentage`, given the alert
/// `treshold` and the previously recorded `previous_percentage`.
pub fn should_push(percentage: Ratio, treshold: Ratio, previous_percentage: Ratio) -> (r: bool)
    requires
        percentage.wf(),
        treshold.wf(),
        0 < treshold.part,
        previous_percentage.wf(),
    ensures
        r == alert_due(percentage, treshold, previous_percentage),
{
    if !percentage.is_below(&treshold) {
        return false;
    }
    // Below the threshold: alert again only once the whole-percent value falls.
    percentage.percent_floor() < previous_percentage.percent_floor()
}

/// No alert is due while free space is at or above the threshold, whatever
/// the previous observation was.
pub proof fn lemma_no_alert_at_or_above_threshold(current: Ratio, threshold: Ratio, previous: Ratio)
    requires
        !current.lt(threshold),
    ensures
        !alert_due(current, threshold, previous),
{
}

/// On a fresh start, with the previous observation seeded at a full ratio of
/// one, the first observation below the threshold is alerted.
pub proof fn lemma_first_drop_alerts(current: Ratio, threshold: Ratio, previous: Ratio)
    requires
        current.wf(),
        threshold.wf(),
        previous.wf(),
        previous.part == previous.whole,
        current.lt(threshold),
    ensures
        alert_due(current, threshold, previous),
{
    let (c, w) = (current.part as int, current.whole as int);
    let (tp, tw) = (threshold.part as int, threshold.whole as int);
    assert(c < w) by (nonlinear_arith)
        requires
            c * tw < tp * w,
            tp <= tw,
            0 < tw,
            0 < w,
            0 <= c,
    {
        assert(tp * w <= tw * w);
    }
    assert((c * 100) / w < 100) by (nonlinear_arith)
        requires
            0 <= c < w,
    ;
    let p = previous.whole as int;
    assert((p * 100) / p == 100) by (nonlinear_arith)
        requires
            0 < p,
    ;
}

/// Below the threshold, an unchanged whole-percent value raises no alert.
pub proof fn lemma_same_percent_is_quiet(current: Ratio, threshold: Ratio, previous: Ratio)
    requires
        current.lt(threshold),
        current.whole_percent() == previous.whole_percent(),
    ensures
        !alert_due(current, threshold, previous),
{
}

/// Below the threshold, a drop of the whole-percent value raises an alert.
pub proof fn lemma_percent_drop_alerts(current: Ratio, threshold: Ratio, previous: Ratio)
    requires
        current.lt(threshold),
        current.whole_percent() < previous.whole_percent(),
    ensures
        alert_due(current, threshold, previous),
{
}

/// Below the threshold, a rise of the whole-percent value raises no alert.
pub proof fn lemma_percent_rise_is_quiet(current: Ratio, threshold: Ratio, previous: Ratio)
    requires
        current.lt(threshold),
        current.whole_percent() > previous.whole_percent(),
    ensures
        !alert_due(current, threshold, previous),
{
}

/// The decision depends on nothing but the values of its arguments: two
/// calls with arguments denoting the same fractions give the same answer,
/// however each fraction is written.
pub proof fn lemma_decision_depends_on_values_only(
    c1: Ratio,
    t1: Ratio,
    p1: Ratio,
    c2: Ratio,
    t2: Ratio,
    p2: Ratio,
)
    requires
        c1.wf(),
        t1.wf(),
        p1.wf(),
        c2.wf(),
        t2.wf(),
        p2.wf(),
        c1.same_value(c2),
        t1.same_value(t2),
        p1.same_value(p2),
    ensures
        alert_due(c1, t1, p1) == alert_due(c2, t2, p2),
{
    lemma_same_value_same_order(c1, t1, c2, t2);
    lemma_same_value_same_percent(c1, c2);
    lemma_same_value_same_percent(p1, p2);
}

} // verus!
