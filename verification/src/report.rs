//! Accumulates the findings of one analysis and keeps the clamped score.

use vstd::prelude::*;
use crate::model::{risk_points, threat_views, threats_of, Finding, Threat};

verus! {

/// Adding a finding to a clamped score is clamping the new sum.
pub proof fn lemma_risk_points_push(f: Seq<Finding>, x: Finding)
    ensures
        risk_points(f.push(x)) == if risk_points(f) + x.points <= 100 {
            (risk_points(f) + x.points) as nat
        } else {
            100nat
        },
{
    assert(f.push(x).drop_last() =~= f);
}

/// The findings gathered so far, with their threats and clamped score.
pub struct Report {
    threats: Vec<Threat>,
    points: u64,
    found: Ghost<Seq<Finding>>,
}

impl View for Report {
    type V = Seq<Finding>;

    closed spec fn view(&self) -> Seq<Finding> {
        self.found@
    }
}

impl Report {
    /// The threats held match the findings and the score is their clamped sum.
    pub closed spec fn wf(&self) -> bool {
        &&& threat_views(self.threats@) == threats_of(self.found@)
        &&& self.points as nat == risk_points(self.found@)
    }

    /// An empty report.
    pub fn new() -> (r: Report)
        ensures
            r.wf(),
            r@ == Seq::<Finding>::empty(),
    {
        let r = Report { threats: Vec::new(), points: 0, found: Ghost(Seq::empty()) };
        assert(r.threats@.map_values(|t: Threat| t@) =~= threats_of(Seq::empty()));
        r
    }

    /// Records a threat with the points it adds.
    pub fn add(&mut self, t: Threat, points: u64)
        requires
            old(self).wf(),
            points <= 100,
        ensures
            final(self).wf(),
            final(self)@ == old(self)@.push(Finding { threat: t@, points: points as nat }),
    {
        let ghost x = Finding { threat: t@, points: points as nat };
        proof {
            lemma_risk_points_push(self.found@, x);
        }
        let ghost old_threats = self.threats@;
        self.threats.push(t);
        if self.points + points <= 100 {
            self.points = self.points + points;
        } else {
            self.points = 100;
        }
        self.found = Ghost(self.found@.push(x));
        assert(threat_views(self.threats@) =~= threats_of(self.found@)) by {
            let a = threat_views(old_threats);
            let b = threats_of(old(self).found@);
            assert(a == b);
            assert(self.threats@ == old_threats.push(t));
            assert(self.found@ == old(self).found@.push(x));
            assert forall|i: int| 0 <= i < self.threats@.len() implies
                #[trigger] threat_views(self.threats@)[i] == threats_of(self.found@)[i] by {
                assert(a.len() == b.len());
                if i < old_threats.len() {
                    assert(a[i] == b[i]);
                    assert(self.threats@[i] == old_threats[i]);
                    assert(self.found@[i] == old(self).found@[i]);
                } else {
                    assert(self.threats@[i] == t);
                    assert(self.found@[i] == x);
                }
            }
        }
    }

    /// The clamped score, in hundredths.
    pub fn points(&self) -> (p: u64)
        requires
            self.wf(),
        ensures
            p as nat == risk_points(self@),
    {
        self.points
    }

    /// Whether no threat was recorded.
    pub fn is_empty(&self) -> (b: bool)
        requires
            self.wf(),
        ensures
            b == (self@.len() == 0),
    {
        assert(threat_views(self.threats@).len() == self.threats@.len());
        self.threats.len() == 0
    }

    /// Gives up the threats.
    pub fn into_threats(self) -> (v: Vec<Threat>)
        requires
            self.wf(),
        ensures
            threat_views(v@) == threats_of(self@),
    {
        self.threats
    }
}

} // verus!
