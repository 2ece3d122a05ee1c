use vstd::prelude::*;

verus! {

/// The source file that a compiler session is started on: its name and its text.
#[derive(Debug, Clone)]
pub struct CompilerConfig {
    code_filename: String,
    code_input: String,
}

impl View for CompilerConfig {
    type V = (Seq<char>, Seq<char>);

    closed spec fn view(&self) -> (Seq<char>, Seq<char>) {
        (self.code_filename@, self.code_input@)
    }
}

impl CompilerConfig {
    pub fn new(filename: &str, input: &str) -> (r: CompilerConfig)
        ensures
            r@ == (filename@, input@),
    {
        CompilerConfig { code_filename: String::from_str(filename), code_input: String::from_str(input) }
    }

    pub fn filename(&self) -> (r: &str)
        ensures
            r@ == self@.0,
    {
        self.code_filename.as_str()
    }

    pub fn input(&self) -> (r: &str)
        ensures
            r@ == self@.1,
    {
        self.code_input.as_str()
    }
}

} // verus!
