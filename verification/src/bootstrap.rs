//! The bootstrap itself: four sequential delegated steps with fail-fast
//! error capture, and the mapping of their raw result to the process's one
//! [`ExitOutcome`].

use vstd::prelude::*;
use crate::outcome::BootstrapError;
use crate::outcome::ExitOutcome;
use crate::outcome::lemma_label_nonempty;
use crate::outcome::outcome_of;
use crate::runtime::call_method_no_args;
use crate::runtime::call_no_args;
use crate::runtime::err_description;
use crate::runtime::extract_i32;
use crate::runtime::get_attr;
use crate::runtime::import_module;

verus! {

/// Runs the delegated command loop once: resolves the `pngtools` module,
/// resolves its `CLI` attribute, instantiates it with no arguments, invokes
/// its zero-argument `cmdloop` method, and converts the returned value to a
/// signed integer exit code.  The first step to fail short-circuits the rest
/// and is captured as the [`BootstrapError`] variant naming that step, so
/// every error carries a non-empty message.  Whether any step succeeds is
/// decided by the embedded interpreter alone.
pub fn run_cli() -> (r: Result<i32, BootstrapError>)
    ensures
        r matches Err(e) ==> e.message_spec().len() > 0,
{
    let module = match import_module("pngtools") {
        Ok(m) => m,
        Err(e) => {
            let err = BootstrapError::Resolution(err_description(&e));
            proof {
                lemma_label_nonempty(err);
            }
            return Err(err);
        },
    };
    let cli_class = match get_attr(&module, "CLI") {
        Ok(c) => c,
        Err(e) => {
            let err = BootstrapError::Resolution(err_description(&e));
            proof {
                lemma_label_nonempty(err);
            }
            return Err(err);
        },
    };
    let cli_instance = match call_no_args(&cli_class) {
        Ok(i) => i,
        Err(e) => {
            let err = BootstrapError::Construction(err_description(&e));
            proof {
                lemma_label_nonempty(err);
            }
            return Err(err);
        },
    };
    let value = match call_method_no_args(&cli_instance, "cmdloop") {
        Ok(v) => v,
        Err(e) => {
            let err = BootstrapError::Invocation(err_description(&e));
            proof {
                lemma_label_nonempty(err);
            }
            return Err(err);
        },
    };
    match extract_i32(&value) {
        Ok(code) => Ok(code),
        Err(e) => {
            let err = BootstrapError::Conversion(err_description(&e));
            proof {
                lemma_label_nonempty(err);
            }
            Err(err)
        },
    }
}

/// Performs the whole bootstrap and forms the process's one outcome: the
/// delegated exit code on success, and on any failure a non-empty message
/// ready for standard-error output.
pub fn bootstrap() -> (o: ExitOutcome)
    ensures
        o matches ExitOutcome::Failure(m) ==> m@.len() > 0,
{
    outcome_of(run_cli())
}

} // verus!
