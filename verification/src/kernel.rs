//! The kernel-side description of a function: which driver is bound and which
//! module provides it. Resolving the sysfs symlinks is I/O and happens outside
//! the library; this composes the resolved lines.

use vstd::prelude::*;
use vstd::string::StringExecFns;

use crate::error::Result;

verus! {

#[derive(Debug)]
pub struct Kernel;

impl Kernel {
    /// Joins the driver line and the module line into the kernel section of a
    /// function's description.
    pub fn text(&self, driver_text: &str, module_text: &str) -> (r: Result<String>)
        ensures
            r is Ok,
            r->Ok_0@ == driver_text@ + seq!['\n'] + module_text@,
    {
        let mut text = driver_text.to_owned();
        text.append("\n");
        text.append(module_text);
        proof {
            reveal_strlit("\n");
            assert(text@ =~= driver_text@ + seq!['\n'] + module_text@);
        }
        Ok(text)
    }
}

} // verus!
