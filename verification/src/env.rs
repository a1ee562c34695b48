//! Environment variables as an ordered list of assignments.
//!
//! The list denotes a mapping from names to values in which a later
//! assignment to a name replaces an earlier one. A host that applies the
//! assignments in order arrives at that mapping.

use vstd::prelude::*;

verus! {

/// One assignment, as texts.
pub struct EnvVarModel {
    pub name: Seq<char>,
    pub value: Seq<char>,
}

/// One assignment of a value to a name.
#[derive(Debug, PartialEq, Eq)]
pub struct EnvVar {
    pub name: String,
    pub value: String,
}

impl View for EnvVar {
    type V = EnvVarModel;

    open spec fn view(&self) -> EnvVarModel {
        EnvVarModel { name: self.name@, value: self.value@ }
    }
}

impl Clone for EnvVar {
    fn clone(&self) -> (copy: Self)
        ensures
            copy@ == self@,
    {
        EnvVar { name: self.name.clone(), value: self.value.clone() }
    }
}

/// The views of a list of assignments.
pub open spec fn assignment_views(vars: Seq<EnvVar>) -> Seq<EnvVarModel> {
    Seq::new(vars.len(), |i: int| vars[i]@)
}

/// The mapping that a list of assignments denotes.
pub open spec fn env_map(vars: Seq<EnvVarModel>) -> Map<Seq<char>, Seq<char>>
    decreases vars.len(),
{
    if vars.len() == 0 {
        Map::empty()
    } else {
        env_map(vars.drop_last()).insert(vars.last().name, vars.last().value)
    }
}

/// Assignments applied one after another denote the first mapping overlaid
/// with the second.
pub proof fn lemma_env_map_concat(first: Seq<EnvVarModel>, second: Seq<EnvVarModel>)
    ensures
        env_map(first + second) == env_map(first).union_prefer_right(env_map(second)),
    decreases second.len(),
{
    if second.len() == 0 {
        assert(first + second =~= first);
        assert(env_map(first).union_prefer_right(env_map(second)) =~= env_map(first));
    } else {
        lemma_env_map_concat(first, second.drop_last());
        assert((first + second).drop_last() =~= first + second.drop_last());
        assert((first + second).last() == second.last());
        assert(env_map(first + second) =~= env_map(first).union_prefer_right(env_map(second)));
    }
}

/// A set of environment variables.
#[derive(Debug)]
pub struct Environment {
    pub vars: Vec<EnvVar>,
}

impl View for Environment {
    type V = Map<Seq<char>, Seq<char>>;

    open spec fn view(&self) -> Map<Seq<char>, Seq<char>> {
        env_map(assignment_views(self.vars@))
    }
}

impl Clone for Environment {
    fn clone(&self) -> (copy: Self)
        ensures
            copy@ == self@,
            assignment_views(copy.vars@) == assignment_views(self.vars@),
    {
        let mut vars: Vec<EnvVar> = Vec::new();
        let mut i: usize = 0;
        while i < self.vars.len()
            invariant
                i <= self.vars.len(),
                vars.len() == i,
                forall|j: int| 0 <= j < i ==> vars@[j]@ == self.vars@[j]@,
            decreases self.vars.len() - i,
        {
            vars.push(self.vars[i].clone());
            i += 1;
        }
        assert(assignment_views(vars@) =~= assignment_views(self.vars@));
        Environment { vars }
    }
}

impl Environment {
    /// The environment without variables.
    pub fn new() -> (env: Environment)
        ensures
            env@ == Map::<Seq<char>, Seq<char>>::empty(),
    {
        let env = Environment { vars: Vec::new() };
        assert(assignment_views(env.vars@) =~= Seq::<EnvVarModel>::empty());
        env
    }

    /// Assigns `value` to `name`, replacing what `name` had.
    pub fn set(&mut self, name: String, value: String)
        ensures
            final(self)@ == old(self)@.insert(name@, value@),
            assignment_views(final(self).vars@) == assignment_views(old(self).vars@).push(
                EnvVarModel { name: name@, value: value@ },
            ),
    {
        let ghost before = assignment_views(self.vars@);
        let ghost added = EnvVarModel { name: name@, value: value@ };
        self.vars.push(EnvVar { name, value });
        proof {
            let after = assignment_views(self.vars@);
            assert(after =~= before.push(added));
            assert(after.drop_last() =~= before);
        }
    }

    /// The value of `name`, if it has one.
    pub fn get(&self, name: &str) -> (value: Option<String>)
        ensures
            match value {
                Some(text) => self@.contains_key(name@) && self@[name@] == text@,
                None => !self@.contains_key(name@),
            },
    {
        let ghost all = assignment_views(self.vars@);
        let wanted = String::from_str(name);
        let mut i: usize = self.vars.len();
        assert(all.skip(i as int) =~= Seq::<EnvVarModel>::empty());
        while i > 0
            invariant
                i <= self.vars.len(),
                all == assignment_views(self.vars@),
                wanted@ == name@,
                !env_map(all.skip(i as int)).contains_key(name@),
            decreases i,
        {
            i -= 1;
            proof {
                lemma_env_map_concat(all.take(i as int), all.skip(i as int));
                lemma_env_map_concat(all.take(i + 1), all.skip(i + 1));
                assert(all.take(i as int) + all.skip(i as int) =~= all);
                assert(all.take(i + 1) + all.skip(i + 1) =~= all);
                assert(all.take(i + 1).drop_last() =~= all.take(i as int));
                assert(all.take(i + 1).last() == self.vars@[i as int]@);
            }
            if self.vars[i].name == wanted {
                return Some(self.vars[i].value.clone());
            }
            proof {
                lemma_env_map_skip_first(all.skip(i as int));
                assert(all.skip(i as int).skip(1) =~= all.skip(i + 1));
            }
        }
        assert(all.skip(0) =~= all);
        None
    }

    /// This environment with the assignments of `overrides` applied on top.
    pub fn overlaid_with(&self, overrides: &Environment) -> (merged: Environment)
        ensures
            merged@ == self@.union_prefer_right(overrides@),
    {
        let mut merged = self.clone();
        let ghost base = assignment_views(self.vars@);
        let ghost over = assignment_views(overrides.vars@);
        let mut i: usize = 0;
        assert(base + over.take(0) =~= base);
        while i < overrides.vars.len()
            invariant
                i <= overrides.vars.len(),
                over == assignment_views(overrides.vars@),
                assignment_views(merged.vars@) == base + over.take(i as int),
            decreases overrides.vars.len() - i,
        {
            let var = overrides.vars[i].clone();
            merged.set(var.name, var.value);
            i += 1;
            assert(assignment_views(merged.vars@) =~= base + over.take(i as int));
        }
        proof {
            assert(over.take(i as int) =~= over);
            lemma_env_map_concat(base, over);
        }
        merged
    }
}

/// A name has a value exactly if the first assignment names it or a later
/// one does.
proof fn lemma_env_map_skip_first(vars: Seq<EnvVarModel>)
    requires
        vars.len() > 0,
    ensures
        forall|name: Seq<char>|
            env_map(vars).contains_key(name) <==> (name == vars[0].name || env_map(
                vars.skip(1),
            ).contains_key(name)),
{
    let head = vars.take(1);
    let tail = vars.skip(1);
    lemma_env_map_concat(head, tail);
    assert(head + tail =~= vars);
    assert(head.drop_last() =~= Seq::<EnvVarModel>::empty());
    assert(env_map(head.drop_last()) == Map::<Seq<char>, Seq<char>>::empty());
    assert(head.last() == vars[0]);
    assert(env_map(head) =~= Map::<Seq<char>, Seq<char>>::empty().insert(
        vars[0].name,
        vars[0].value,
    ));
}

} // verus!
