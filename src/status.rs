//! The per-package classification and the outcome of a whole run, with their texts and order.
use vstd::prelude::*;
use vstd::std_specs::cmp::PartialOrdSpec;

verus! {

/// What kind of update, if any, the tool reports for one package.
///
/// The variants are ordered from the mildest to the most severe, so the worst
/// status of a report is its maximum.
#[derive(Clone, Copy, Debug, PartialEq, Eq, Structural, Ord)]
pub enum UpdateRequirement {
    /// No update is available.
    UpToDate,
    /// An update is available within the semver constraints already declared.
    SemverSafeUpdate,
    /// An update is available but it is not semver-compatible.
    UpdatePossible,
}

impl UpdateRequirement {
    /// Position of the variant in the order `UpToDate < SemverSafeUpdate < UpdatePossible`.
    pub open spec fn rank(self) -> nat {
        match self {
            UpdateRequirement::UpToDate => 0,
            UpdateRequirement::SemverSafeUpdate => 1,
            UpdateRequirement::UpdatePossible => 2,
        }
    }

    /// The kebab-case literal that stands for the variant on the wire and in text.
    pub open spec fn text(self) -> Seq<char> {
        match self {
            UpdateRequirement::UpToDate => "up-to-date"@,
            UpdateRequirement::SemverSafeUpdate => "semver-safe-update"@,
            UpdateRequirement::UpdatePossible => "update-possible"@,
        }
    }

    /// The variant that a literal stands for; `None` for any other text.
    pub open spec fn from_text_spec(s: Seq<char>) -> Option<UpdateRequirement> {
        if s == "up-to-date"@ {
            Some(UpdateRequirement::UpToDate)
        } else if s == "semver-safe-update"@ {
            Some(UpdateRequirement::SemverSafeUpdate)
        } else if s == "update-possible"@ {
            Some(UpdateRequirement::UpdatePossible)
        } else {
            None
        }
    }

    fn rank_of(&self) -> (r: u8)
        ensures
            r as nat == self.rank(),
    {
        match self {
            UpdateRequirement::UpToDate => 0,
            UpdateRequirement::SemverSafeUpdate => 1,
            UpdateRequirement::UpdatePossible => 2,
        }
    }

    /// The canonical text of the variant.
    pub fn as_str(&self) -> (r: &'static str)
        ensures
            r@ == self.text(),
    {
        match self {
            UpdateRequirement::UpToDate => "up-to-date",
            UpdateRequirement::SemverSafeUpdate => "semver-safe-update",
            UpdateRequirement::UpdatePossible => "update-possible",
        }
    }

    /// Reads a kebab-case literal; any text that names no variant gives `None`.
    pub fn from_text(s: &str) -> (r: Option<UpdateRequirement>)
        ensures
            r == Self::from_text_spec(s@),
    {
        let owned = s.to_owned();
        if owned == "up-to-date".to_owned() {
            Some(UpdateRequirement::UpToDate)
        } else if owned == "semver-safe-update".to_owned() {
            Some(UpdateRequirement::SemverSafeUpdate)
        } else if owned == "update-possible".to_owned() {
            Some(UpdateRequirement::UpdatePossible)
        } else {
            None
        }
    }
}

impl PartialOrd for UpdateRequirement {
    fn partial_cmp(&self, other: &UpdateRequirement) -> (r: Option<core::cmp::Ordering>) {
        let a = self.rank_of();
        let b = other.rank_of();
        if a < b {
            Some(core::cmp::Ordering::Less)
        } else if a == b {
            Some(core::cmp::Ordering::Equal)
        } else {
            Some(core::cmp::Ordering::Greater)
        }
    }
}

impl vstd::std_specs::cmp::PartialOrdSpecImpl for UpdateRequirement {
    open spec fn obeys_partial_cmp_spec() -> bool {
        true
    }

    open spec fn partial_cmp_spec(&self, other: &UpdateRequirement) -> Option<core::cmp::Ordering> {
        if self.rank() < other.rank() {
            Some(core::cmp::Ordering::Less)
        } else if self.rank() == other.rank() {
            Some(core::cmp::Ordering::Equal)
        } else {
            Some(core::cmp::Ordering::Greater)
        }
    }
}

/// Every variant's text reads back as that variant, and the only text that
/// reads as a variant is that variant's own text.
pub proof fn lemma_status_text_round_trip(u: UpdateRequirement, s: Seq<char>)
    ensures
        UpdateRequirement::from_text_spec(u.text()) == Some(u),
        UpdateRequirement::from_text_spec(s) == Some(u) ==> s == u.text(),
{
    reveal_strlit("up-to-date");
    reveal_strlit("semver-safe-update");
    reveal_strlit("update-possible");
    assert("up-to-date"@.len() == 10);
    assert("semver-safe-update"@.len() == 18);
    assert("update-possible"@.len() == 15);
}

/// The comparison orders `UpToDate < SemverSafeUpdate < UpdatePossible` and is
/// a total order, so a maximum over statuses picks the most severe one.
pub proof fn lemma_status_order(a: UpdateRequirement, b: UpdateRequirement, c: UpdateRequirement)
    ensures
        UpdateRequirement::UpToDate.partial_cmp_spec(&UpdateRequirement::SemverSafeUpdate)
            == Some(core::cmp::Ordering::Less),
        UpdateRequirement::SemverSafeUpdate.partial_cmp_spec(&UpdateRequirement::UpdatePossible)
            == Some(core::cmp::Ordering::Less),
        UpdateRequirement::UpToDate.partial_cmp_spec(&UpdateRequirement::UpdatePossible)
            == Some(core::cmp::Ordering::Less),
        a.partial_cmp_spec(&b) == Some(core::cmp::Ordering::Equal) <==> a == b,
        a.partial_cmp_spec(&b) == Some(core::cmp::Ordering::Less) <==> b.partial_cmp_spec(&a)
            == Some(core::cmp::Ordering::Greater),
        a.partial_cmp_spec(&b) is Some,
        a.partial_cmp_spec(&b) == Some(core::cmp::Ordering::Less) && b.partial_cmp_spec(&c)
            == Some(core::cmp::Ordering::Less) ==> a.partial_cmp_spec(&c) == Some(
            core::cmp::Ordering::Less,
        ),
{
}

/// The most severe status of a sequence, by the comparison; `UpToDate` for an
/// empty one.
pub open spec fn worst(s: Seq<UpdateRequirement>) -> UpdateRequirement
    decreases s.len(),
{
    if s.len() == 0 {
        UpdateRequirement::UpToDate
    } else if s.last().rank() > worst(s.drop_last()).rank() {
        s.last()
    } else {
        worst(s.drop_last())
    }
}

/// A non-empty sequence of statuses has a maximum under the comparison: one
/// of its elements that no element exceeds. It is `UpdatePossible` exactly
/// when some element is, and `UpToDate` exactly when every element is.
pub proof fn lemma_worst_is_maximum(s: Seq<UpdateRequirement>)
    requires
        s.len() > 0,
    ensures
        s.contains(worst(s)),
        forall|i: int|
            0 <= i < s.len() ==> (#[trigger] s[i]).partial_cmp_spec(&worst(s)) != Some(
                core::cmp::Ordering::Greater,
            ),
        worst(s) == UpdateRequirement::UpdatePossible <==> exists|i: int|
            0 <= i < s.len() && #[trigger] s[i] == UpdateRequirement::UpdatePossible,
        worst(s) == UpdateRequirement::UpToDate <==> forall|i: int|
            0 <= i < s.len() ==> #[trigger] s[i] == UpdateRequirement::UpToDate,
    decreases s.len(),
{
    let rest = s.drop_last();
    if rest.len() == 0 {
        assert(s[0] == s.last());
        assert(s.contains(s[0]));
    } else {
        lemma_worst_is_maximum(rest);
        let i0 = choose|i: int| 0 <= i < rest.len() && rest[i] == worst(rest);
        assert(s[i0] == worst(rest));
        assert(s[s.len() - 1] == s.last());
        assert forall|i: int| 0 <= i < s.len() implies (#[trigger] s[i]).partial_cmp_spec(&worst(s))
            != Some(core::cmp::Ordering::Greater) by {
            if i < rest.len() {
                assert(rest[i] == s[i]);
                assert(rest[i].partial_cmp_spec(&worst(rest)) != Some(core::cmp::Ordering::Greater));
            }
        }
        if exists|i: int| 0 <= i < s.len() && #[trigger] s[i] == UpdateRequirement::UpdatePossible {
            let k = choose|i: int| 0 <= i < s.len() && #[trigger] s[i] == UpdateRequirement::UpdatePossible;
            if k < rest.len() {
                assert(rest[k] == UpdateRequirement::UpdatePossible);
            }
        }
        if worst(s) == UpdateRequirement::UpToDate {
            assert forall|i: int| 0 <= i < s.len() implies #[trigger] s[i] == UpdateRequirement::UpToDate by {
                if i < rest.len() {
                    assert(rest[i] == s[i]);
                    assert(rest[i].partial_cmp_spec(&worst(rest)) != Some(core::cmp::Ordering::Greater));
                }
            }
        }
        if forall|i: int| 0 <= i < s.len() ==> #[trigger] s[i] == UpdateRequirement::UpToDate {
            assert forall|i: int| 0 <= i < rest.len() implies #[trigger] rest[i] == UpdateRequirement::UpToDate by {
                assert(s[i] == rest[i]);
            }
        }
    }
}

/// What the tool's exit status says about the run as a whole.
#[derive(Clone, Copy, Debug, PartialEq, Eq, Structural)]
pub enum IndicatedUpdateRequirement {
    /// The tool exited successfully: nothing needs updating.
    UpToDate,
    /// The tool exited with a failure status: some update is needed.
    UpdateRequired,
}

impl IndicatedUpdateRequirement {
    /// The outcome that an exit status stands for: success means up to date.
    pub open spec fn from_exit_spec(success: bool) -> IndicatedUpdateRequirement {
        if success {
            IndicatedUpdateRequirement::UpToDate
        } else {
            IndicatedUpdateRequirement::UpdateRequired
        }
    }

    /// The kebab-case literal that stands for the variant in text.
    pub open spec fn text(self) -> Seq<char> {
        match self {
            IndicatedUpdateRequirement::UpToDate => "up-to-date"@,
            IndicatedUpdateRequirement::UpdateRequired => "update-required"@,
        }
    }

    /// Classifies a run by whether its exit status was a success.
    pub fn from_exit_success(success: bool) -> (r: IndicatedUpdateRequirement)
        ensures
            r == Self::from_exit_spec(success),
    {
        if success {
            IndicatedUpdateRequirement::UpToDate
        } else {
            IndicatedUpdateRequirement::UpdateRequired
        }
    }

    /// The canonical text of the variant.
    pub fn as_str(&self) -> (r: &'static str)
        ensures
            r@ == self.text(),
    {
        match self {
            IndicatedUpdateRequirement::UpToDate => "up-to-date",
            IndicatedUpdateRequirement::UpdateRequired => "update-required",
        }
    }
}

} // verus!
