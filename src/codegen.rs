use vstd::prelude::*;
use crate::attr::{configured_level, parse_log_level, AttrError, AttrToken};
use crate::level::Level;
use crate::sig::{main_of, FnSig, Main, Opt, SigError};

verus! {

/// Source text of the generated items, in the order they are emitted. The
/// body of the annotated function goes between `inner_signature` and
/// `entry_point`.
#[derive(Clone, Debug)]
pub struct Expansion {
    /// The options structure that the command line is parsed into.
    pub options_struct: String,
    /// The signature of the renamed function that receives the original body.
    pub inner_signature: String,
    /// The generated `main`.
    pub entry_point: String,
}

/// Why the attribute could not be expanded.
#[derive(Clone, Copy, Debug, PartialEq, Eq, Structural)]
pub enum IckError {
    Sig(SigError),
    Attr(AttrError),
}

/// The annotated function together with its configured default level.
#[derive(Clone, Debug, PartialEq, Eq)]
pub struct Quick {
    pub main: Main,
    pub default_log_level: Level,
}

pub open spec fn async_prefix(is_async: bool) -> Seq<char> {
    if is_async {
        "async "@
    } else {
        Seq::empty()
    }
}

/// The path segment that names a level in generated code.
pub open spec fn level_variant(l: Level) -> Seq<char> {
    match l {
        Level::Off => "Off"@,
        Level::Error => "Error"@,
        Level::Warn => "Warn"@,
        Level::Info => "Info"@,
        Level::Debug => "Debug"@,
        Level::Trace => "Trace"@,
    }
}

pub open spec fn options_head() -> Seq<char> {
    "use ::qu::ick_use::clap;\n#[derive(clap::Parser)]\n#[allow(non_camel_case_types)]\nstruct __wrapping_Opt {\n"@
}

/// The two counter fields, `-q`/`--quiet` and `-v`/`--verbose`, that every
/// options structure has.
pub open spec fn counter_fields() -> Seq<char> {
    "    #[clap(short, long, action = clap::ArgAction::Count)]\n    pub quiet: u8,\n    #[clap(short, long, action = clap::ArgAction::Count)]\n    pub verbose: u8,\n}\n"@
}

/// The field that embeds the user's options, if there are any.
pub open spec fn embedded_field(opt: Option<Opt>) -> Seq<char> {
    match opt {
        Some(o) => "    #[clap(flatten)]\n    "@ + o.name@ + ": "@ + o.type_@ + ",\n"@,
        None => Seq::empty(),
    }
}

pub open spec fn options_struct_text(opt: Option<Opt>) -> Seq<char> {
    options_head() + embedded_field(opt) + counter_fields()
}

pub open spec fn inner_params(opt: Option<Opt>) -> Seq<char> {
    match opt {
        Some(o) => (if o.is_mut {
            "mut "@
        } else {
            Seq::empty()
        }) + o.name@ + ": "@ + o.type_@,
        None => Seq::empty(),
    }
}

pub open spec fn inner_signature_text(main: Main) -> Seq<char> {
    async_prefix(main.is_async) + "fn _main_inner("@ + inner_params(main.opt)
        + ") -> ::qu::ick_use::Result"@
}

/// The argument that the generated `main` hands to the inner function.
pub open spec fn inner_call_arg(opt: Option<Opt>) -> Seq<char> {
    match opt {
        Some(o) => "opts."@ + o.name@,
        None => Seq::empty(),
    }
}

pub open spec fn entry_point_text(main: Main, level: Level) -> Seq<char> {
    (if main.is_async {
        "#[::tokio::main]\n"@
    } else {
        Seq::empty()
    }) + async_prefix(main.is_async)
        + "fn main() {\n    let opts: __wrapping_Opt = clap::Parser::parse();\n    ::qu::ick_use::init_logging(::qu::ick_use::resolve(::qu::ick_use::Level::"@
        + level_variant(level) + ", opts.verbose, opts.quiet));\n    ::qu::ick_use::finish(_main_inner("@
        + inner_call_arg(main.opt) + ")"@ + (if main.is_async {
        ".await"@
    } else {
        Seq::empty()
    }) + ");\n}\n"@
}

/// The text generated for a function and a default level.
pub open spec fn expands_to(e: Expansion, main: Main, level: Level) -> bool {
    &&& e.options_struct@ == options_struct_text(main.opt)
    &&& e.inner_signature@ == inner_signature_text(main)
    &&& e.entry_point@ == entry_point_text(main, level)
}

/// The outcome of the attribute on a signature and an argument list: the
/// signature is checked first, then the argument list.
pub open spec fn ick_outcome(metadata: Seq<AttrToken>, sig: FnSig) -> Result<Quick, IckError> {
    match main_of(sig) {
        Err(e) => Err(IckError::Sig(e)),
        Ok(main) => match configured_level(metadata) {
            Err(e) => Err(IckError::Attr(e)),
            Ok(level) => Ok(Quick { main, default_log_level: level }),
        },
    }
}

fn push_async(s: &mut String, is_async: bool)
    ensures
        final(s)@ == old(s)@ + async_prefix(is_async),
{
    if is_async {
        s.append("async ");
    } else {
        assert(old(s)@ + Seq::<char>::empty() =~= old(s)@);
    }
}

fn level_variant_str(l: Level) -> (r: &'static str)
    ensures
        r@ == level_variant(l),
{
    match l {
        Level::Off => "Off",
        Level::Error => "Error",
        Level::Warn => "Warn",
        Level::Info => "Info",
        Level::Debug => "Debug",
        Level::Trace => "Trace",
    }
}

impl Quick {
    pub fn log_level_as_int(&self) -> (r: u8)
        ensures
            r as int == self.default_log_level.rank(),
    {
        self.default_log_level.index()
    }

    /// Renders the options structure, the inner function's signature and the
    /// generated `main`.
    pub fn to_tokens(&self) -> (r: Expansion)
        ensures
            expands_to(r, self.main, self.default_log_level),
    {
        let mut options_struct = String::from_str(
            "use ::qu::ick_use::clap;\n#[derive(clap::Parser)]\n#[allow(non_camel_case_types)]\nstruct __wrapping_Opt {\n",
        );
        let mut inner_signature = String::new();
        push_async(&mut inner_signature, self.main.is_async);
        inner_signature.append("fn _main_inner(");
        let mut entry_point = String::new();
        if self.main.is_async {
            entry_point.append("#[::tokio::main]\n");
        }
        push_async(&mut entry_point, self.main.is_async);
        entry_point.append(
            "fn main() {\n    let opts: __wrapping_Opt = clap::Parser::parse();\n    ::qu::ick_use::init_logging(::qu::ick_use::resolve(::qu::ick_use::Level::",
        );
        entry_point.append(level_variant_str(self.default_log_level));
        entry_point.append(", opts.verbose, opts.quiet));\n    ::qu::ick_use::finish(_main_inner(");
        match &self.main.opt {
            Some(o) => {
                options_struct.append("    #[clap(flatten)]\n    ");
                options_struct.append(o.name.as_str());
                options_struct.append(": ");
                options_struct.append(o.type_.as_str());
                options_struct.append(",\n");
                if o.is_mut {
                    inner_signature.append("mut ");
                }
                inner_signature.append(o.name.as_str());
                inner_signature.append(": ");
                inner_signature.append(o.type_.as_str());
                entry_point.append("opts.");
                entry_point.append(o.name.as_str());
            },
            None => {},
        }
        options_struct.append(
            "    #[clap(short, long, action = clap::ArgAction::Count)]\n    pub quiet: u8,\n    #[clap(short, long, action = clap::ArgAction::Count)]\n    pub verbose: u8,\n}\n",
        );
        inner_signature.append(") -> ::qu::ick_use::Result");
        entry_point.append(")");
        if self.main.is_async {
            entry_point.append(".await");
        }
        entry_point.append(");\n}\n");
        let r = Expansion { options_struct, inner_signature, entry_point };
        assert(r.options_struct@ =~= options_struct_text(self.main.opt));
        assert(r.inner_signature@ =~= inner_signature_text(self.main));
        assert(r.entry_point@ =~= entry_point_text(self.main, self.default_log_level));
        r
    }
}

/// Expands the attribute: checks the annotated function's signature, reads
/// the configured default level, and renders the generated items.
pub fn ick(metadata: &Vec<AttrToken>, sig: &FnSig) -> (r: Result<Expansion, IckError>)
    ensures
        match ick_outcome(metadata@, *sig) {
            Ok(q) => r matches Ok(e) && expands_to(e, q.main, q.default_log_level),
            Err(err) => r == Err::<Expansion, IckError>(err),
        },
{
    let main = match Main::parse(sig) {
        Ok(m) => m,
        Err(e) => {
            return Err(IckError::Sig(e));
        },
    };
    let default_log_level = match parse_log_level(metadata) {
        Ok(l) => l,
        Err(e) => {
            return Err(IckError::Attr(e));
        },
    };
    let quick = Quick { main, default_log_level };
    Ok(quick.to_tokens())
}

/// Exit status of the generated program: `0` when the inner function
/// succeeded, `1` when it reported a failure.
pub fn exit_status(succeeded: bool) -> (r: i32)
    ensures
        succeeded ==> r == 0,
        !succeeded ==> r == 1,
{
    if succeeded {
        0
    } else {
        1
    }
}

/// A function without parameters is accepted whenever the argument list is:
/// its options structure holds the quiet and verbose counters and no other
/// field, and neither the inner function nor the generated `main` takes an
/// argument.
pub proof fn lemma_no_param_entry_point(metadata: Seq<AttrToken>, sig: FnSig)
    requires
        sig.params@.len() == 0,
        configured_level(metadata) is Ok,
    ensures
        ick_outcome(metadata, sig) matches Ok(q) && q.main.opt is None,
        options_struct_text(None) == options_head() + counter_fields(),
        inner_params(None) == Seq::<char>::empty(),
        inner_call_arg(None) == Seq::<char>::empty(),
{
    assert(options_head() + embedded_field(None) =~= options_head());
}

} // verus!
