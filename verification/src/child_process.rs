//! How the immediate child is to be started: the program, its arguments and
//! its environment.
use vstd::prelude::*;

verus! {

/// The map that results from setting each pair's variable to its value, in
/// order, so that a later pair wins over an earlier one with the same name.
pub open spec fn env_map(pairs: Seq<(String, String)>) -> Map<Seq<char>, Seq<char>>
    decreases pairs.len(),
{
    if pairs.len() == 0 {
        Map::empty()
    } else {
        env_map(pairs.drop_last()).insert(pairs.last().0@, pairs.last().1@)
    }
}

/// No two pairs name the same variable.
pub open spec fn names_unique(pairs: Seq<(String, String)>) -> bool {
    forall|i: int, j: int| 0 <= i < pairs.len() && 0 <= j < pairs.len() && i != j ==> pairs[i].0@ != pairs[j].0@
}

/// The abstract content of a [`ProcessArgs`].
pub struct ProcessArgsView {
    pub program: Seq<char>,
    pub args: Seq<Seq<char>>,
    pub env: Map<Seq<char>, Seq<char>>,
}

/// The command line and environment of a child process.
pub struct ProcessArgs {
    program: String,
    args: Vec<String>,
    env: Vec<(String, String)>,
}

impl View for ProcessArgs {
    type V = ProcessArgsView;

    closed spec fn view(&self) -> ProcessArgsView {
        ProcessArgsView {
            program: self.program@,
            args: self.args@.map_values(|s: String| s@),
            env: env_map(self.env@),
        }
    }
}

/// Replacing the value of a variable that the pairs already set is setting
/// it once more.
proof fn lemma_env_map_update(pairs: Seq<(String, String)>, j: int, pair: (String, String))
    requires
        names_unique(pairs),
        0 <= j < pairs.len(),
        pair.0@ == pairs[j].0@,
    ensures
        env_map(pairs.update(j, pair)) == env_map(pairs).insert(pair.0@, pair.1@),
    decreases pairs.len(),
{
    let updated = pairs.update(j, pair);
    let last = pairs.len() - 1;
    if j == last {
        assert(updated.drop_last() =~= pairs.drop_last());
        assert(env_map(updated) =~= env_map(pairs).insert(pair.0@, pair.1@));
    } else {
        assert(updated.drop_last() =~= pairs.drop_last().update(j, pair));
        lemma_env_map_update(pairs.drop_last(), j, pair);
        assert(pairs[j].0@ != pairs[last].0@);
        assert(env_map(updated) =~= env_map(pairs).insert(pair.0@, pair.1@));
    }
}

/// A variable that the pairs set takes the value of the last pair that sets
/// it.
pub proof fn lemma_last_setting_wins(pairs: Seq<(String, String)>, i: int)
    requires
        0 <= i < pairs.len(),
        forall|k: int| i < k < pairs.len() ==> pairs[k].0@ != pairs[i].0@,
    ensures
        env_map(pairs).contains_key(pairs[i].0@),
        env_map(pairs)[pairs[i].0@] == pairs[i].1@,
    decreases pairs.len(),
{
    if i < pairs.len() - 1 {
        lemma_last_setting_wins(pairs.drop_last(), i);
    }
}

/// The pairs set exactly the variables that some pair names.
pub proof fn lemma_env_names(pairs: Seq<(String, String)>, name: Seq<char>)
    ensures
        env_map(pairs).contains_key(name) <==> exists|i: int| 0 <= i < pairs.len() && #[trigger] pairs[i].0@ == name,
    decreases pairs.len(),
{
    if pairs.len() > 0 {
        lemma_env_names(pairs.drop_last(), name);
        if env_map(pairs.drop_last()).contains_key(name) {
            let i = choose|i: int| 0 <= i < pairs.len() - 1 && #[trigger] pairs.drop_last()[i].0@ == name;
            assert(pairs[i].0@ == name);
        }
        if exists|i: int| 0 <= i < pairs.len() && #[trigger] pairs[i].0@ == name {
            let i = choose|i: int| 0 <= i < pairs.len() && #[trigger] pairs[i].0@ == name;
            if i < pairs.len() - 1 {
                assert(pairs.drop_last()[i].0@ == name);
            }
        }
    }
}

impl ProcessArgs {
    #[verifier::type_invariant]
    spec fn env_names_unique(self) -> bool {
        names_unique(self.env@)
    }

    /// The program `program`, with no arguments and an empty environment.
    pub fn new(program: &str) -> (p: ProcessArgs)
        ensures
            p@.program == program@,
            p@.args == Seq::<Seq<char>>::empty(),
            p@.env == Map::<Seq<char>, Seq<char>>::empty(),
    {
        let p = ProcessArgs { program: program.to_owned(), args: Vec::new(), env: Vec::new() };
        assert(p@.args =~= Seq::<Seq<char>>::empty());
        p
    }

    /// The same program with `args` as its arguments, in place of the
    /// earlier ones.
    pub fn with_args(self, args: Vec<String>) -> (p: ProcessArgs)
        ensures
            p@ == (ProcessArgsView { args: args@.map_values(|s: String| s@), ..self@ }),
    {
        proof {
            use_type_invariant(&self);
        }
        ProcessArgs { program: self.program, args, env: self.env }
    }

    /// The same program with the environment that setting each pair of `env`
    /// in order yields, in place of the earlier one; a later pair wins over
    /// an earlier one with the same name.
    pub fn with_env(self, env: Vec<(String, String)>) -> (p: ProcessArgs)
        ensures
            p@ == (ProcessArgsView { env: env_map(env@), ..self@ }),
    {
        proof {
            use_type_invariant(&self);
        }
        let mut vars: Vec<(String, String)> = Vec::new();
        let mut i: usize = 0;
        while i < env.len()
            invariant
                i <= env.len(),
                names_unique(vars@),
                env_map(vars@) == env_map(env@.take(i as int)),
            decreases env.len() - i,
        {
            let name = env[i].0.clone();
            let value = env[i].1.clone();
            assert(env@.take(i as int + 1).drop_last() =~= env@.take(i as int));
            let mut j: usize = 0;
            let mut found = false;
            while j < vars.len() && !found
                invariant
                    j <= vars.len(),
                    found ==> j < vars.len() && vars@[j as int].0@ == name@,
                    !found ==> forall|k: int| 0 <= k < j ==> vars@[k].0@ != name@,
                decreases vars.len() - j + (if found { 0int } else { 1int }),
            {
                if vars[j].0 == name {
                    found = true;
                } else {
                    j = j + 1;
                }
            }
            if found {
                let ghost before = vars@;
                proof {
                    lemma_env_map_update(before, j as int, (name, value));
                }
                vars[j] = (name, value);
                assert(vars@ == before.update(j as int, (name, value)));
            } else {
                let ghost before = vars@;
                vars.push((name, value));
                assert(vars@.drop_last() =~= before);
            }
            i = i + 1;
        }
        assert(env@.take(env@.len() as int) =~= env@);
        ProcessArgs { program: self.program, args: self.args, env: vars }
    }

    /// The program to run.
    pub fn program(&self) -> (program: &str)
        ensures
            program@ == self@.program,
    {
        self.program.as_str()
    }

    /// The arguments to give it.
    pub fn args(&self) -> (args: &Vec<String>)
        ensures
            args@.map_values(|s: String| s@) == self@.args,
    {
        &self.args
    }

    /// Its environment, each variable once, in no promised order.
    pub fn env(&self) -> (env: &Vec<(String, String)>)
        ensures
            names_unique(env@),
            env_map(env@) == self@.env,
    {
        proof {
            use_type_invariant(self);
        }
        &self.env
    }
}

} // verus!
