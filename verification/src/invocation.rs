use vstd::prelude::*;
use crate::text::{clone_pairs, clone_strings, pairs, strings};

verus! {

/// The mathematical value of an [`Invocation`].
pub struct InvocationView {
    pub program: Seq<char>,
    pub working_dir: Option<Seq<char>>,
    /// The variables to set, in the order in which they were given: a later one wins.
    pub envs: Seq<(Seq<char>, Seq<char>)>,
    pub args: Seq<Seq<char>>,
}

impl InvocationView {
    /// The same invocation with `envs` after the variables that it has.
    pub open spec fn with_envs(self, envs: Seq<(Seq<char>, Seq<char>)>) -> InvocationView {
        InvocationView { envs: self.envs + envs, ..self }
    }

    /// The same invocation with `args` after the arguments that it has.
    pub open spec fn with_args(self, args: Seq<Seq<char>>) -> InvocationView {
        InvocationView { args: self.args + args, ..self }
    }
}

/// A process that is ready to be run: the program, where it runs, the variables to set and
/// the arguments. Nothing runs until the caller starts it.
#[derive(Debug, PartialEq, Eq)]
pub struct Invocation {
    program: String,
    working_dir: Option<String>,
    envs: Vec<(String, String)>,
    args: Vec<String>,
}

impl View for Invocation {
    type V = InvocationView;

    closed spec fn view(&self) -> InvocationView {
        InvocationView {
            program: self.program@,
            working_dir: match self.working_dir {
                Some(dir) => Some(dir@),
                None => None,
            },
            envs: pairs(self.envs@),
            args: strings(self.args@),
        }
    }
}

impl Clone for Invocation {
    fn clone(&self) -> (r: Self)
        ensures
            r@ == self@,
    {
        Invocation {
            program: self.program.clone(),
            working_dir: match &self.working_dir {
                Some(dir) => Some(dir.clone()),
                None => None,
            },
            envs: clone_pairs(&self.envs),
            args: clone_strings(&self.args),
        }
    }
}

impl Invocation {
    /// The invocation of `program` with no arguments, in the caller's directory and
    /// environment.
    pub fn new(program: &str) -> (r: Invocation)
        ensures
            r@ == (InvocationView {
                program: program@,
                working_dir: None,
                envs: Seq::empty(),
                args: Seq::empty(),
            }),
    {
        let r = Invocation {
            program: String::from_str(program),
            working_dir: None,
            envs: Vec::new(),
            args: Vec::new(),
        };
        assert(r@.envs =~= Seq::empty());
        assert(r@.args =~= Seq::empty());
        r
    }

    /// Sets the directory in which the program runs.
    pub fn current_dir(&mut self, dir: &str)
        ensures
            final(self)@ == (InvocationView { working_dir: Some(dir@), ..old(self)@ }),
    {
        self.working_dir = Some(String::from_str(dir));
    }

    /// Sets a variable in the program's environment.
    pub fn env(&mut self, key: &str, value: &str)
        ensures
            final(self)@ == old(self)@.with_envs(seq![(key@, value@)]),
    {
        self.envs.push((String::from_str(key), String::from_str(value)));
        assert(self@.envs =~= old(self)@.envs + seq![(key@, value@)]);
    }

    /// Adds one argument after those that the invocation has.
    pub fn arg(&mut self, arg: &str)
        ensures
            final(self)@ == old(self)@.with_args(seq![arg@]),
    {
        self.args.push(String::from_str(arg));
        assert(self@.args =~= old(self)@.args + seq![arg@]);
    }

    /// Adds arguments after those that the invocation has.
    pub fn args(&mut self, args: &Vec<String>)
        ensures
            final(self)@ == old(self)@.with_args(strings(args@)),
    {
        let mut i: usize = 0;
        while i < args.len()
            invariant
                i <= args.len(),
                self@ == old(self)@.with_args(strings(args@).take(i as int)),
            decreases args.len() - i,
        {
            let ghost before = self@;
            self.arg(args[i].as_str());
            assert(strings(args@).take(i as int) + seq![args@[i as int]@] =~= strings(args@).take(
                i + 1,
            ));
            assert(before.args + seq![args@[i as int]@] =~= old(self)@.args + strings(
                args@,
            ).take(i + 1));
            i += 1;
        }
        assert(strings(args@).take(args@.len() as int) =~= strings(args@));
    }

    /// The program to run.
    pub fn program(&self) -> (r: &str)
        ensures
            r@ == self@.program,
    {
        self.program.as_str()
    }

    /// The directory in which the program runs; `None` for the caller's.
    pub fn working_dir(&self) -> (r: Option<&str>)
        ensures
            r is None <==> self@.working_dir is None,
            r matches Some(dir) ==> self@.working_dir == Some(dir@),
    {
        match &self.working_dir {
            Some(dir) => Some(dir.as_str()),
            None => None,
        }
    }

    /// The variables to set, in the order in which they were given.
    pub fn envs(&self) -> (r: &Vec<(String, String)>)
        ensures
            pairs(r@) == self@.envs,
    {
        &self.envs
    }

    /// The arguments.
    pub fn arguments(&self) -> (r: &Vec<String>)
        ensures
            strings(r@) == self@.args,
    {
        &self.args
    }
}

} // verus!
