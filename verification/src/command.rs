//! A structured record of one external-tool invocation: the program and its
//! arguments. The library only plans invocations; running them is the
//! caller's business.

use vstd::prelude::*;

verus! {

/// The mathematical shape of an invocation.
pub ghost struct InvocationModel {
    pub program: Seq<char>,
    pub args: Seq<Seq<char>>,
}

/// A program name together with its argument list, ready to be spawned by the
/// caller with the working directory it chooses.
#[derive(Debug)]
pub struct ToolInvocation {
    pub program: String,
    pub args: Vec<String>,
}

impl View for ToolInvocation {
    type V = InvocationModel;

    open spec fn view(&self) -> InvocationModel {
        InvocationModel { program: self.program@, args: self.args.deep_view() }
    }
}

impl ToolInvocation {
    /// An invocation with no arguments yet.
    pub fn new(program: &str) -> (r: ToolInvocation)
        ensures
            r@.program == program@,
            r@.args =~= Seq::<Seq<char>>::empty(),
    {
        let r = ToolInvocation { program: program.to_owned(), args: Vec::new() };
        proof {
            assert(r@.args =~= Seq::<Seq<char>>::empty());
        }
        r
    }

    /// Appends one argument.
    pub fn arg(&mut self, a: &str)
        ensures
            final(self)@.program == old(self)@.program,
            final(self)@.args =~= old(self)@.args + seq![a@],
    {
        self.args.push(a.to_owned());
        proof {
            assert(self@.args =~= old(self)@.args + seq![a@]);
        }
    }

    /// Appends one argument given as an owned string.
    pub fn arg_string(&mut self, a: String)
        ensures
            final(self)@.program == old(self)@.program,
            final(self)@.args =~= old(self)@.args + seq![a@],
    {
        self.args.push(a);
        proof {
            assert(self@.args =~= old(self)@.args + seq![a@]);
        }
    }
}

} // verus!
