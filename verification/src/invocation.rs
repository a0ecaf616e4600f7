//! A compiler invocation: program, ordered arguments and environment.

use vstd::prelude::*;

verus! {

/// One command as the orchestrator issues it. The environment holds each
/// key at most once.
#[derive(Clone, Debug)]
pub struct Invocation {
    /// The path of the program.
    pub program: String,
    /// The arguments, in order, without the program.
    pub args: Vec<String>,
    /// The environment entries that the command sets, as key and value.
    pub env: Vec<(String, String)>,
}

/// An invocation as plain mathematical values.
pub struct InvocationView {
    pub program: Seq<char>,
    pub args: Seq<Seq<char>>,
    pub env: Map<Seq<char>, Seq<char>>,
}

/// Entry `i` of `env` holds `key`.
pub open spec fn key_at(env: Seq<(String, String)>, key: Seq<char>, i: int) -> bool {
    0 <= i < env.len() && env[i].0@ == key
}

/// No key occurs twice in `env`.
pub open spec fn unique_keys(env: Seq<(String, String)>) -> bool {
    forall|i: int, j: int|
        0 <= i < env.len() && 0 <= j < env.len() && #[trigger] env[i].0@ == #[trigger] env[j].0@
            ==> i == j
}

/// The mapping that a list of entries with unique keys stands for.
pub open spec fn env_map(env: Seq<(String, String)>) -> Map<Seq<char>, Seq<char>> {
    Map::new(
        |k: Seq<char>| exists|i: int| key_at(env, k, i),
        |k: Seq<char>| env[choose|i: int| key_at(env, k, i)].1@,
    )
}

/// With unique keys, the entry that holds a key decides its value.
pub proof fn lemma_env_entry(env: Seq<(String, String)>, i: int)
    requires
        unique_keys(env),
        0 <= i < env.len(),
    ensures
        env_map(env).contains_key(env[i].0@),
        env_map(env)[env[i].0@] == env[i].1@,
{
    let k = env[i].0@;
    assert(key_at(env, k, i));
    let c = choose|c: int| key_at(env, k, c);
    assert(key_at(env, k, c));
    assert(c == i);
}

/// Setting a key that entry `p` holds replaces that entry's value.
pub proof fn lemma_env_replace(
    old_env: Seq<(String, String)>,
    new_env: Seq<(String, String)>,
    p: int,
)
    requires
        unique_keys(old_env),
        0 <= p < old_env.len(),
        new_env.len() == old_env.len(),
        new_env[p].0@ == old_env[p].0@,
        forall|i: int| 0 <= i < old_env.len() && i != p ==> new_env[i] == old_env[i],
    ensures
        unique_keys(new_env),
        env_map(new_env) =~= env_map(old_env).insert(new_env[p].0@, new_env[p].1@),
{
    assert forall|i: int| 0 <= i < old_env.len() implies #[trigger] new_env[i].0@ == old_env[i].0@ by {}
    assert(unique_keys(new_env)) by {
        assert forall|i: int, j: int|
            0 <= i < new_env.len() && 0 <= j < new_env.len() && #[trigger] new_env[i].0@
                == #[trigger] new_env[j].0@ implies i == j by {
            assert(old_env[i].0@ == old_env[j].0@);
        }
    }
    let key = new_env[p].0@;
    let target = env_map(old_env).insert(key, new_env[p].1@);
    assert forall|k: Seq<char>| env_map(new_env).contains_key(k) <==> target.contains_key(k) by {
        if env_map(new_env).contains_key(k) {
            let i = choose|i: int| key_at(new_env, k, i);
            assert(key_at(old_env, k, i));
        }
        if target.contains_key(k) {
            if k == key {
                assert(key_at(new_env, k, p));
            } else {
                let i = choose|i: int| key_at(old_env, k, i);
                assert(key_at(new_env, k, i));
            }
        }
    }
    assert forall|k: Seq<char>| env_map(new_env).contains_key(k) implies env_map(new_env)[k]
        == target[k] by {
        let i = choose|i: int| key_at(new_env, k, i);
        assert(key_at(new_env, k, i));
        lemma_env_entry(new_env, i);
        if i != p {
            assert(new_env[i].0@ != new_env[p].0@);
            lemma_env_entry(old_env, i);
        }
    }
}

/// Setting a key that no entry holds appends an entry.
pub proof fn lemma_env_push(env: Seq<(String, String)>, entry: (String, String))
    requires
        unique_keys(env),
        forall|i: int| 0 <= i < env.len() ==> #[trigger] env[i].0@ != entry.0@,
    ensures
        unique_keys(env.push(entry)),
        env_map(env.push(entry)) =~= env_map(env).insert(entry.0@, entry.1@),
{
    let new_env = env.push(entry);
    let n = env.len() as int;
    let target = env_map(env).insert(entry.0@, entry.1@);
    assert forall|i: int| 0 <= i < n implies #[trigger] new_env[i] == env[i] by {}
    assert(new_env[n] == entry);
    assert(unique_keys(new_env)) by {
        assert forall|i: int, j: int|
            0 <= i < new_env.len() && 0 <= j < new_env.len() && #[trigger] new_env[i].0@
                == #[trigger] new_env[j].0@ implies i == j by {
            if i < n && j < n {
                assert(env[i].0@ == env[j].0@);
            } else if i < n {
                assert(env[i].0@ != entry.0@);
            } else if j < n {
                assert(env[j].0@ != entry.0@);
            }
        }
    }
    assert forall|k: Seq<char>| env_map(new_env).contains_key(k) <==> target.contains_key(k) by {
        if env_map(new_env).contains_key(k) {
            let i = choose|i: int| key_at(new_env, k, i);
            if i < n {
                assert(key_at(env, k, i));
            }
        }
        if target.contains_key(k) {
            if k == entry.0@ {
                assert(key_at(new_env, k, n));
            } else {
                let i = choose|i: int| key_at(env, k, i);
                assert(key_at(new_env, k, i));
            }
        }
    }
    assert forall|k: Seq<char>| env_map(new_env).contains_key(k) implies env_map(new_env)[k]
        == target[k] by {
        let i = choose|i: int| key_at(new_env, k, i);
        assert(key_at(new_env, k, i));
        lemma_env_entry(new_env, i);
        if i < n {
            assert(env[i].0@ != entry.0@);
            lemma_env_entry(env, i);
        }
    }
}

impl View for Invocation {
    type V = InvocationView;

    open spec fn view(&self) -> InvocationView {
        InvocationView {
            program: self.program@,
            args: crate::scanner::arg_views(self.args@),
            env: env_map(self.env@),
        }
    }
}

impl Invocation {
    /// The invariant of the type: every key of the environment occurs once.
    pub open spec fn wf(&self) -> bool {
        unique_keys(self.env@)
    }

    /// An invocation of `program` with `args` that sets no environment entry.
    pub fn new(program: String, args: Vec<String>) -> (inv: Invocation)
        ensures
            inv.wf(),
            inv.program == program,
            inv.args == args,
            inv@.env =~= Map::<Seq<char>, Seq<char>>::empty(),
    {
        Invocation { program, args, env: Vec::new() }
    }

    /// Whether no key of the environment occurs twice.
    pub fn is_well_formed(&self) -> (ok: bool)
        ensures
            ok == self.wf(),
    {
        let mut i: usize = 0;
        while i < self.env.len()
            invariant
                i <= self.env.len(),
                forall|a: int, b: int|
                    0 <= a < i && 0 <= b < a ==> #[trigger] self.env@[a].0@ != #[trigger] self.env@[b].0@,
            decreases self.env.len() - i,
        {
            let mut j: usize = 0;
            while j < i
                invariant
                    j <= i,
                    i < self.env.len(),
                    forall|b: int| 0 <= b < j ==> self.env@[i as int].0@ != #[trigger] self.env@[b].0@,
                decreases i - j,
            {
                if self.env[i].0 == self.env[j].0 {
                    return false;
                }
                j += 1;
            }
            i += 1;
        }
        proof {
            assert forall|a: int, b: int|
                0 <= a < self.env@.len() && 0 <= b < self.env@.len() && #[trigger] self.env@[a].0@
                    == #[trigger] self.env@[b].0@ implies a == b by {
                if b < a {
                    assert(self.env@[a].0@ != self.env@[b].0@);
                }
                if a < b {
                    assert(self.env@[b].0@ != self.env@[a].0@);
                }
            }
        }
        true
    }

    /// The value that the environment holds for `key`, if any.
    pub fn env_value(&self, key: &str) -> (value: Option<String>)
        requires
            self.wf(),
        ensures
            value.is_some() == self@.env.contains_key(key@),
            match value {
                Some(v) => self@.env[key@] == v@,
                None => true,
            },
    {
        let wanted: String = key.to_owned();
        let mut i: usize = 0;
        while i < self.env.len()
            invariant
                i <= self.env.len(),
                wanted@ == key@,
                self.wf(),
                forall|j: int| 0 <= j < i ==> !key_at(self.env@, key@, j),
            decreases self.env.len() - i,
        {
            if self.env[i].0 == wanted {
                proof {
                    lemma_env_entry(self.env@, i as int);
                }
                return Some(self.env[i].1.clone());
            }
            i += 1;
        }
        None
    }

    /// Sets `key` to `value` in the environment: the entry that holds `key`
    /// is replaced, or a new entry is appended. Program and arguments stay.
    pub fn set_env(&mut self, key: &str, value: &str)
        requires
            old(self).wf(),
        ensures
            final(self).wf(),
            final(self)@.program == old(self)@.program,
            final(self)@.args == old(self)@.args,
            final(self)@.env == old(self)@.env.insert(key@, value@),
    {
        let wanted: String = key.to_owned();
        let mut i: usize = 0;
        while i < self.env.len()
            invariant
                i <= self.env.len(),
                wanted@ == key@,
                *self == *old(self),
                unique_keys(self.env@),
                forall|j: int| 0 <= j < i ==> #[trigger] self.env@[j].0@ != key@,
            decreases self.env.len() - i,
        {
            if self.env[i].0 == wanted {
                let ghost before = self.env@;
                self.env.set(i, (wanted, value.to_owned()));
                proof {
                    lemma_env_replace(before, self.env@, i as int);
                }
                return ;
            }
            i += 1;
        }
        let ghost before = self.env@;
        let entry = (wanted, value.to_owned());
        self.env.push(entry);
        proof {
            lemma_env_push(before, entry);
        }
    }
}

} // verus!
