use vstd::prelude::*;

use crate::error::Error;
use crate::hex::{decode_hex, spec_decode_hex};

verus! {

/// What the argument loader decided from the external argument list.
pub enum LoadedArgs {
    /// Production mode: no external arguments were given, so script args
    /// and witness are the ones embedded in the host context.
    FromHost,
    /// Debug mode: two hex-encoded external arguments decoded to
    /// `(script_args, witness)`, for isolated runs without a live host.
    Supplied(Vec<u8>, Vec<u8>),
}

/// The argument loader's decision on an external argument list.
///
/// No argument selects production mode; exactly two arguments are
/// decoded from hex, surfacing `Encoding` when either is malformed; any
/// other count is rejected with `WrongArgv`.
pub fn load_script_args_and_witness(argv: &Vec<Vec<u8>>) -> (r: Result<LoadedArgs, Error>)
    ensures
        argv@.len() == 0 ==> r == Ok::<LoadedArgs, Error>(LoadedArgs::FromHost),
        argv@.len() == 2 ==> (match (spec_decode_hex(argv@[0]@), spec_decode_hex(argv@[1]@)) {
            (Some(a), Some(w)) => r matches Ok(LoadedArgs::Supplied(sa, sw)) && sa@ == a && sw@
                == w,
            _ => r == Err::<LoadedArgs, Error>(Error::Encoding),
        }),
        argv@.len() != 0 && argv@.len() != 2 ==> r == Err::<LoadedArgs, Error>(Error::WrongArgv),
{
    if argv.len() == 0 {
        Ok(LoadedArgs::FromHost)
    } else if argv.len() == 2 {
        let script_args: Vec<u8> = match decode_hex(argv[0].as_slice()) {
            Ok(v) => v,
            Err(e) => {
                return Err(e);
            },
        };
        let witness: Vec<u8> = match decode_hex(argv[1].as_slice()) {
            Ok(v) => v,
            Err(e) => {
                return Err(e);
            },
        };
        Ok(LoadedArgs::Supplied(script_args, witness))
    } else {
        Err(Error::WrongArgv)
    }
}

} // verus!
