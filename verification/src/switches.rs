//! The options of one run, as read from the command line.

use vstd::prelude::*;

verus! {

/// Options to run with.
#[derive(Clone, Debug)]
pub struct Switches {
    /// The password to derive the key from.
    pub passwd: String,
    /// Whether to decrypt.
    pub decrypt: bool,
    /// Whether to give the decrypted payload as raw bytes instead of text.
    pub raw: bool,
}

/// Whether an argument asks for decryption.
pub open spec fn asks_decrypt(arg: Seq<char>) -> bool {
    arg == "-d"@ || arg == "-dr"@
}

/// Whether an argument asks for raw output.
pub open spec fn asks_raw(arg: Seq<char>) -> bool {
    arg == "-dr"@
}

impl Switches {
    /// Options that encrypt with an empty password.
    pub fn new() -> (sw: Switches)
        ensures
            sw.passwd@ == Seq::<char>::empty(),
            !sw.decrypt,
            !sw.raw,
    {
        Switches { passwd: String::new(), decrypt: false, raw: false }
    }
}

/// Read the options from the arguments of the process, the program's name
/// first.
///
/// There must be one or two arguments behind the name, else the result is
/// `None`. The password is the last argument. The argument right behind the
/// name selects the mode: `-d` to decrypt, `-dr` to decrypt to raw bytes,
/// anything else to encrypt.
pub fn parse_args(args: &Vec<String>) -> (r: Option<Switches>)
    ensures
        r is Some <==> args@.len() == 2 || args@.len() == 3,
        r matches Some(sw) ==> {
            &&& sw.passwd@ == args@.last()@
            &&& sw.decrypt == asks_decrypt(args@[1]@)
            &&& sw.raw == asks_raw(args@[1]@)
        },
{
    let count = args.len();
    if count != 2 && count != 3 {
        return None;
    }
    let mut sw = Switches::new();
    sw.passwd = args[count - 1].clone();
    let decrypt_flag = "-d".to_owned();
    let raw_flag = "-dr".to_owned();
    proof {
        reveal_strlit("-d");
        reveal_strlit("-dr");
        assert("-d"@.len() != "-dr"@.len());
    }
    if args[1] == decrypt_flag {
        sw.decrypt = true;
    } else if args[1] == raw_flag {
        sw.decrypt = true;
        sw.raw = true;
    }
    Some(sw)
}

} // verus!
