//! Which listeners an object from the backend fires.
//!
//! A listener is registered for one tag of one family. The dispatcher
//! keeps the registrations and says, for each object that arrives, which
//! of them fire and in what order; the owner of the listeners calls them.

use crate::decoder::check;
use crate::decoder::spec_failure;
use crate::family::Family;
use crate::raw::RawTaggedObject;
use vstd::prelude::*;

verus! {

/// What a listener is registered for: one tag of one family.
#[derive(Debug)]
pub struct Pattern {
    pub family: Family,
    pub tag: String,
}

/// Whether a registration for `pattern` fires for an object of family
/// `family` tagged `tag`.
pub open spec fn spec_matches(pattern: (Family, Seq<char>), family: Family, tag: Seq<char>) -> bool {
    pattern.0 == family && pattern.1 == tag
}

/// The positions in `patterns` of the registrations that match, in the
/// order of registration.
pub open spec fn spec_matching(patterns: Seq<(Family, Seq<char>)>, family: Family, tag: Seq<char>)
    -> Seq<int>
    decreases patterns.len(),
{
    if patterns.len() == 0 {
        Seq::empty()
    } else if spec_matches(patterns.last(), family, tag) {
        spec_matching(patterns.drop_last(), family, tag).push(patterns.len() - 1)
    } else {
        spec_matching(patterns.drop_last(), family, tag)
    }
}

/// The registrations that fire for `raw`, delivered as an object of the
/// family `family`: those that match its tag, where it decodes in the
/// family; none at all where it does not.
pub open spec fn spec_fired(patterns: Seq<(Family, Seq<char>)>, family: Family, raw: RawTaggedObject)
    -> Seq<int> {
    if spec_failure(family, raw) is None {
        spec_matching(patterns, family, raw.tag@)
    } else {
        Seq::empty()
    }
}

/// The registrations of a client, in the order in which they were made.
#[derive(Debug)]
pub struct Dispatcher {
    patterns: Vec<Pattern>,
}

impl View for Dispatcher {
    type V = Seq<(Family, Seq<char>)>;

    /// The registered patterns, oldest first.
    closed spec fn view(&self) -> Seq<(Family, Seq<char>)> {
        self.patterns@.map_values(|pattern: Pattern| (pattern.family, pattern.tag@))
    }
}

impl Dispatcher {
    /// A dispatcher without registrations.
    pub fn new() -> (r: Dispatcher)
        ensures
            r@ == Seq::<(Family, Seq<char>)>::empty(),
    {
        let r = Dispatcher { patterns: Vec::new() };
        assert(r@ =~= Seq::empty());
        r
    }

    /// The number of registrations.
    pub fn len(&self) -> (r: usize)
        ensures
            r == self@.len(),
    {
        self.patterns.len()
    }

    /// Registers a listener for the tag `tag` of the family `family`, after
    /// all earlier ones, and returns its position. The same pattern can be
    /// registered any number of times; each registration counts.
    pub fn bind(&mut self, family: Family, tag: &str) -> (r: usize)
        ensures
            final(self)@ == old(self)@.push((family, tag@)),
            r == old(self)@.len(),
    {
        let position = self.patterns.len();
        self.patterns.push(Pattern { family, tag: tag.to_owned() });
        assert(self@ =~= old(self)@.push((family, tag@)));
        position
    }

    /// The positions of the registrations that fire for `raw`, delivered as
    /// an object of the family `family`, in the order of registration. Each
    /// registration is named at most once. An object that does not decode
    /// in the family fires nothing.
    pub fn deliver(&self, family: Family, raw: &RawTaggedObject) -> (r: Vec<usize>)
        ensures
            r@.map_values(|position: usize| position as int) == spec_fired(self@, family, *raw),
    {
        let mut fired: Vec<usize> = Vec::new();
        if check(family, raw).is_some() {
            assert(fired@.map_values(|position: usize| position as int) =~= Seq::empty());
            return fired;
        }
        let mut i: usize = 0;
        assert(self@.subrange(0, 0) =~= Seq::empty());
        assert(fired@.map_values(|position: usize| position as int) =~= Seq::empty());
        while i < self.patterns.len()
            invariant
                i <= self.patterns.len(),
                self@.len() == self.patterns.len(),
                fired@.map_values(|position: usize| position as int) == spec_matching(
                    self@.subrange(0, i as int),
                    family,
                    raw.tag@,
                ),
            decreases self.patterns.len() - i,
        {
            let ghost before = fired@;
            proof {
                let upto = self@.subrange(0, i + 1);
                assert(upto.last() == self@[i as int]);
                assert(upto.drop_last() =~= self@.subrange(0, i as int));
            }
            if self.patterns[i].family == family && *self.patterns[i].tag.as_str()
                == *raw.tag.as_str() {
                fired.push(i);
                assert(fired@.map_values(|position: usize| position as int) =~= before.map_values(
                    |position: usize| position as int,
                ).push(i as int));
            }
            i = i + 1;
        }
        assert(self@.subrange(0, i as int) =~= self@);
        fired
    }
}

/// Positions that fire are positions of matching registrations, and come in
/// rising order: no registration fires twice, and an earlier one fires
/// before a later one.
pub proof fn lemma_fired_in_registration_order(
    patterns: Seq<(Family, Seq<char>)>,
    family: Family,
    tag: Seq<char>,
)
    ensures
        forall|i: int|
            0 <= i < spec_matching(patterns, family, tag).len() ==> 0 <= #[trigger] spec_matching(
                patterns,
                family,
                tag,
            )[i] < patterns.len() && spec_matches(
                patterns[spec_matching(patterns, family, tag)[i]],
                family,
                tag,
            ),
        forall|i: int, j: int|
            0 <= i < j < spec_matching(patterns, family, tag).len() ==> spec_matching(
                patterns,
                family,
                tag,
            )[i] < spec_matching(patterns, family, tag)[j],
        forall|k: int|
            0 <= k < patterns.len() && spec_matches(#[trigger] patterns[k], family, tag)
                ==> spec_matching(patterns, family, tag).contains(k),
    decreases patterns.len(),
{
    if patterns.len() > 0 {
        let rest = patterns.drop_last();
        lemma_fired_in_registration_order(rest, family, tag);
        let found = spec_matching(patterns, family, tag);
        let before = spec_matching(rest, family, tag);
        assert forall|k: int|
            0 <= k < patterns.len() && spec_matches(#[trigger] patterns[k], family, tag) implies found.contains(
            k,
        ) by {
            if k < patterns.len() - 1 {
                assert(rest[k] == patterns[k]);
                let at = choose|at: int| 0 <= at < before.len() && before[at] == k;
                assert(found[at] == k);
            } else {
                assert(found[found.len() - 1] == k);
            }
        }
    }
}

/// Registering the same pattern twice and delivering one object that
/// matches it fires both registrations, the earlier before the later, after
/// whatever fired before: registrations are not merged.
pub proof fn lemma_same_pattern_fires_twice(
    patterns: Seq<(Family, Seq<char>)>,
    family: Family,
    raw: RawTaggedObject,
)
    requires
        spec_failure(family, raw) is None,
    ensures
        spec_fired(patterns.push((family, raw.tag@)).push((family, raw.tag@)), family, raw)
            == spec_fired(patterns, family, raw).push(patterns.len() as int).push(
            patterns.len() as int + 1,
        ),
{
    let tag = raw.tag@;
    let once = patterns.push((family, tag));
    let twice = once.push((family, tag));
    assert(once.drop_last() =~= patterns);
    assert(twice.drop_last() =~= once);
    assert(spec_matches(once.last(), family, tag));
    assert(spec_matches(twice.last(), family, tag));
    assert(spec_matching(once, family, tag) == spec_matching(patterns, family, tag).push(
        patterns.len() as int,
    ));
    assert(spec_matching(twice, family, tag) == spec_matching(once, family, tag).push(
        patterns.len() as int + 1,
    ));
}

/// A registration for another tag, or for another family, does not change
/// what fires; and an object that does not decode fires nothing, whatever
/// is registered.
pub proof fn lemma_other_pattern_is_silent(
    patterns: Seq<(Family, Seq<char>)>,
    other: (Family, Seq<char>),
    family: Family,
    raw: RawTaggedObject,
)
    ensures
        !spec_matches(other, family, raw.tag@) ==> spec_fired(patterns.push(other), family, raw)
            == spec_fired(patterns, family, raw),
        spec_failure(family, raw) is Some ==> spec_fired(patterns, family, raw) == Seq::<
            int,
        >::empty(),
{
    assert(patterns.push(other).drop_last() =~= patterns);
}

} // verus!
