//! Where a conversion reads from and writes to.
use crate::text::{chars_of, push_all, string_of};
use vstd::prelude::*;

verus! {

/// Labels the source path in a description of a configuration.
pub const ORG_LABEL: &'static str = "Org file path: ";

/// Labels the destination in a description of a configuration.
pub const OUTPUT_LABEL: &'static str = "Output path: ";

/// Names the destination when no output file is given.
pub const STDOUT_NAME: &'static str = "stdout";

/// The paths of a conversion: the Org source, and the Typst file to write, or
/// none for standard output.
pub struct Config {
    pub org_file: String,
    pub typst_file: Option<String>,
}

/// The destination path as text, if there is one.
pub open spec fn output_view(typst_file: Option<String>) -> Option<Seq<char>> {
    match typst_file {
        Some(t) => Some(t@),
        None => None,
    }
}

/// The description of a configuration: one line for the source path, one
/// for the destination.
pub open spec fn description(org_file: Seq<char>, typst_file: Option<Seq<char>>) -> Seq<char> {
    ORG_LABEL@ + org_file + seq!['\n'] + OUTPUT_LABEL@ + match typst_file {
        Some(t) => t,
        None => STDOUT_NAME@,
    }
}

impl Config {
    /// A configuration that reads `org_file` and writes `typst_file`, or
    /// standard output where that is `None`.
    pub fn new(org_file: String, typst_file: Option<String>) -> (r: Config)
        ensures
            r.org_file == org_file,
            r.typst_file == typst_file,
    {
        Config { org_file, typst_file }
    }

    /// Describes the configuration in two lines: the source path, and the
    /// destination path or `stdout`.
    pub fn describe(&self) -> (r: String)
        ensures
            r@ == description(self.org_file@, output_view(self.typst_file)),
    {
        let mut out = chars_of(ORG_LABEL);
        push_all(&mut out, &chars_of(self.org_file.as_str()));
        out.push('\n');
        push_all(&mut out, &chars_of(OUTPUT_LABEL));
        match &self.typst_file {
            Some(t) => push_all(&mut out, &chars_of(t.as_str())),
            None => push_all(&mut out, &chars_of(STDOUT_NAME)),
        }
        assert(out@ =~= description(self.org_file@, output_view(self.typst_file)));
        string_of(&out)
    }
}

} // verus!
