//! Command-line intent: which plugin file to load, which verb to run, and
//! the optional URL argument.

use vstd::prelude::*;
use vstd::string::StringExecFns;

verus! {

/// The usage line printed when the argument list has the wrong shape.
pub open spec fn usage_text() -> Seq<char> {
    "usage: chouten <filename> <option> <url?>"@
}

/// CLI intent, immutable after construction.
#[derive(Debug)]
pub struct Params {
    pub filename: String,
    pub option: String,
    pub url: Option<String>,
}

/// Whether an argument list has an acceptable shape: a filename, an option
/// and at most one URL. The URL stays optional here — whether the selected
/// verb demands one is the dispatcher's decision, so that its absence is
/// reported as a missing URL, not as a malformed command line. The discover
/// flag keeps ignoring any trailing arguments.
pub open spec fn args_accepted(args: Seq<Seq<char>>) -> bool {
    &&& args.len() >= 3
    &&& (args[2] == "--discover"@ || args.len() <= 4)
}

impl Params {
    /// Builds the intent from the raw argument list (program name included).
    pub fn new(args: &[String]) -> (r: Result<Params, &'static str>)
        ensures
            args_accepted(args@.map_values(|a: String| a@)) <==> r is Ok,
            r matches Ok(p) ==> {
                &&& p.filename@ == args@[1]@
                &&& p.option@ == args@[2]@
                &&& if args@.len() > 3 {
                        p.url matches Some(u) && u@ == args@[3]@
                    } else {
                        p.url is None
                    }
            },
            r matches Err(e) ==> e@ == usage_text(),
    {
        if args.len() < 3 {
            return Err("usage: chouten <filename> <option> <url?>");
        }
        let filename = args[1].clone();
        let option = args[2].clone();

        if option != String::from_str("--discover") && args.len() > 4 {
            return Err("usage: chouten <filename> <option> <url?>");
        }

        let url: Option<String> = if args.len() > 3 {
            Some(args[3].clone())
        } else {
            None
        };

        Ok(Params { filename, option, url })
    }
}

/// A command line naming a verb's flag with no URL argument passes the
/// argument-validation stage for every verb, and is then decided at
/// dispatch: a URL-requiring verb is refused with the URL-required error
/// before any script interaction, while discover proceeds to its call
/// expression.
pub proof fn lemma_args_url_required(args: Seq<Seq<char>>, v: crate::dispatch::Verb)
    requires
        args.len() == 3,
        args[2] == crate::dispatch::flag_text(v),
    ensures
        args_accepted(args),
        crate::dispatch::requires_url(v) ==> crate::dispatch::dispatch_text(args[2], None)
            == Err::<Seq<char>, crate::dispatch::DispatchError>(
            crate::dispatch::DispatchError::UrlRequired(v),
        ),
        !crate::dispatch::requires_url(v) ==> crate::dispatch::dispatch_text(args[2], None)
            == Ok::<Seq<char>, crate::dispatch::DispatchError>("discover()"@),
{
    crate::dispatch::lemma_url_required(v);
}

} // verus!
