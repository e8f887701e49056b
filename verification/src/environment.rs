use vstd::prelude::*;
use crate::invocation::Invocation;
use crate::text::pairs;

verus! {

/// The variable that keeps rustup from installing toolchains by itself.
pub open spec fn auto_install_key() -> Seq<char> {
    "RUSTUP_AUTO_INSTALL"@
}

/// The variable that selects a Rust toolchain.
pub open spec fn toolchain_key() -> Seq<char> {
    "RUSTUP_TOOLCHAIN"@
}

/// The variables that every environment holds.
pub open spec fn baseline() -> Map<Seq<char>, Seq<char>> {
    map![auto_install_key() => "0"@]
}

/// The variables of an environment in the order of their names.
pub open spec fn ordered(vars: Map<Seq<char>, Seq<char>>) -> Seq<(Seq<char>, Seq<char>)> {
    if vars.contains_key(toolchain_key()) {
        seq![(auto_install_key(), "0"@), (toolchain_key(), vars[toolchain_key()])]
    } else {
        seq![(auto_install_key(), "0"@)]
    }
}

/// The two variable names differ.
pub proof fn lemma_keys_differ()
    ensures
        auto_install_key() != toolchain_key(),
{
    reveal_strlit("RUSTUP_AUTO_INSTALL");
    reveal_strlit("RUSTUP_TOOLCHAIN");
    assert(auto_install_key().len() == 19);
    assert(toolchain_key().len() == 16);
}

/// Set of environment variables for running a binary.
#[derive(Debug, PartialEq, Eq, Hash)]
pub struct Environment {
    toolchain: Option<String>,
}

impl View for Environment {
    type V = Map<Seq<char>, Seq<char>>;

    closed spec fn view(&self) -> Map<Seq<char>, Seq<char>> {
        match self.toolchain {
            Some(name) => baseline().insert(toolchain_key(), name@),
            None => baseline(),
        }
    }
}

impl Clone for Environment {
    fn clone(&self) -> (r: Self)
        ensures
            r@ == self@,
    {
        match &self.toolchain {
            Some(name) => Environment { toolchain: Some(name.clone()) },
            None => Environment { toolchain: None },
        }
    }
}

impl Environment {
    /// The variables in the order of their names.
    pub open spec fn entries(&self) -> Seq<(Seq<char>, Seq<char>)> {
        ordered(self@)
    }

    /// Creates a new default set of environment variables.
    pub fn new() -> (r: Environment)
        ensures
            r@ == baseline(),
    {
        Environment { toolchain: None }
    }

    /// Sets a specific Rust toolchain, or with `None` leaves the choice to rustup.
    pub fn rust(self, toolchain_name: Option<String>) -> (r: Environment)
        ensures
            toolchain_name matches Some(name) ==> r@ == self@.insert(toolchain_key(), name@),
            toolchain_name is None ==> r@ == self@.remove(toolchain_key()),
    {
        let r = Environment { toolchain: toolchain_name };
        proof {
            lemma_keys_differ();
            if r.toolchain is Some {
                assert(r@ =~= self@.insert(toolchain_key(), r.toolchain->0@));
            } else {
                assert(r@ =~= self@.remove(toolchain_key()));
            }
        }
        r
    }

    /// Returns the variables, in the order of their names.
    pub fn vars(&self) -> (r: Vec<(String, String)>)
        ensures
            pairs(r@) == self.entries(),
    {
        let mut vars: Vec<(String, String)> = Vec::new();
        vars.push((String::from_str("RUSTUP_AUTO_INSTALL"), String::from_str("0")));
        match &self.toolchain {
            Some(name) => {
                vars.push((String::from_str("RUSTUP_TOOLCHAIN"), name.clone()));
            },
            None => {},
        }
        proof {
            lemma_keys_differ();
            assert(pairs(vars@) =~= self.entries());
        }
        vars
    }

    /// Sets the variables on the invocation, after those that it has.
    pub fn apply(&self, cmd: &mut Invocation)
        ensures
            final(cmd)@ == old(cmd)@.with_envs(self.entries()),
    {
        cmd.env("RUSTUP_AUTO_INSTALL", "0");
        match &self.toolchain {
            Some(name) => {
                cmd.env("RUSTUP_TOOLCHAIN", name.as_str());
            },
            None => {},
        }
        proof {
            lemma_keys_differ();
            assert(final(cmd)@.envs =~= old(cmd)@.envs + self.entries());
        }
    }

    /// Whether both hold the same variables with the same values.
    pub fn same(&self, other: &Environment) -> (r: bool)
        ensures
            r == (self@ == other@),
    {
        proof {
            lemma_keys_differ();
        }
        match (&self.toolchain, &other.toolchain) {
            (Some(a), Some(b)) => {
                let r = *a == *b;
                proof {
                    if r {
                        assert(a@ =~= b@);
                    } else {
                        assert(self@[toolchain_key()] == a@);
                        assert(other@[toolchain_key()] == b@);
                    }
                }
                r
            },
            (None, None) => true,
            (Some(_), None) => {
                assert(self@.contains_key(toolchain_key()));
                assert(!other@.contains_key(toolchain_key()));
                false
            },
            (None, Some(_)) => {
                assert(!self@.contains_key(toolchain_key()));
                assert(other@.contains_key(toolchain_key()));
                false
            },
        }
    }

    /// Every environment holds the baseline: rustup does not install toolchains by itself.
    pub proof fn lemma_baseline_is_kept(&self)
        ensures
            self@.contains_key(auto_install_key()),
            self@[auto_install_key()] == "0"@,
    {
        lemma_keys_differ();
    }

    /// The listed variables are those of the environment: each name once, with its value.
    pub proof fn lemma_entries_are_the_variables(&self)
        ensures
            forall|i: int|
                0 <= i < self.entries().len() ==> self@.contains_key(
                    (#[trigger] self.entries()[i]).0,
                ) && self@[self.entries()[i].0] == self.entries()[i].1,
            forall|key: Seq<char>| #[trigger]
                self@.contains_key(key) ==> exists|i: int|
                    0 <= i < self.entries().len() && (#[trigger] self.entries()[i]).0 == key,
            forall|i: int, j: int|
                0 <= i < j < self.entries().len() ==> (#[trigger] self.entries()[i]).0 != (
                #[trigger] self.entries()[j]).0,
    {
        lemma_keys_differ();
        match self.toolchain {
            Some(name) => {
                assert(self.entries()[0].0 == auto_install_key());
                assert(self.entries()[1].0 == toolchain_key());
            },
            None => {
                assert(self.entries()[0].0 == auto_install_key());
            },
        }
    }
}

} // verus!
