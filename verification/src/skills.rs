use vstd::prelude::*;

verus! {

/// The skills a unit has, held in the hash set of `bevy_utils`.
#[verifier::external_body]
pub struct SkillSet {
    set: bevy_utils::HashSet<i32>,
}

/// The skills in a skill set.
pub uninterp spec fn skill_contents(skills: SkillSet) -> Set<i32>;

impl SkillSet {
    /// Calls `bevy_utils::HashSet::with_capacity_and_hasher` with the default
    /// hasher: a set that holds no skill yet.
    #[verifier::external_body]
    pub(crate) fn with_capacity(capacity: usize) -> (s: SkillSet)
        ensures
            skill_contents(s) == Set::<i32>::empty(),
    {
        SkillSet { set: bevy_utils::HashSet::with_capacity_and_hasher(capacity, Default::default()) }
    }

    /// Calls `HashSet::insert`: afterwards the set holds `skill` besides what
    /// it held before; the result says whether `skill` was new.
    #[verifier::external_body]
    pub(crate) fn insert(&mut self, skill: i32) -> (added: bool)
        ensures
            skill_contents(*final(self)) == skill_contents(*old(self)).insert(skill),
            added == !skill_contents(*old(self)).contains(skill),
    {
        self.set.insert(skill)
    }

    /// Calls `HashSet::contains`: whether the set holds `skill`.
    #[verifier::external_body]
    pub(crate) fn contains(&self, skill: i32) -> (held: bool)
        ensures
            held == skill_contents(*self).contains(skill),
    {
        self.set.contains(&skill)
    }

    /// A skill set holding exactly the given skills, made as a new unit's
    /// starting skills are made.
    pub fn from_skills(skills: &[i32]) -> (s: SkillSet)
        ensures
            skill_contents(s) == skills@.to_set(),
    {
        let mut s = SkillSet::with_capacity(skills.len());
        let mut i: usize = 0;
        while i < skills.len()
            invariant
                i <= skills@.len(),
                skill_contents(s) == skills@.take(i as int).to_set(),
            decreases skills@.len() - i,
        {
            s.insert(skills[i]);
            proof {
                assert(skills@.take(i + 1) == skills@.take(i as int).push(skills@[i as int]));
                skills@.take(i as int).lemma_push_to_set_commute(skills@[i as int]);
            }
            i = i + 1;
        }
        proof {
            assert(skills@.take(skills@.len() as int) == skills@);
        }
        s
    }

    /// Whether the set holds every one of the `needed` skills.
    pub fn has_all(&self, needed: &[i32]) -> (all: bool)
        ensures
            all == (forall|k: int| 0 <= k < needed@.len() ==> skill_contents(*self).contains(#[trigger] needed@[k])),
    {
        let mut i: usize = 0;
        while i < needed.len()
            invariant
                i <= needed@.len(),
                forall|k: int| 0 <= k < i ==> skill_contents(*self).contains(#[trigger] needed@[k]),
            decreases needed@.len() - i,
        {
            if !self.contains(needed[i]) {
                return false;
            }
            i = i + 1;
        }
        true
    }
}

impl Default for SkillSet {
    /// A set that holds no skill.
    fn default() -> (s: Self)
        ensures
            skill_contents(s) == Set::<i32>::empty(),
    {
        SkillSet::with_capacity(0)
    }
}

} // verus!
