use vstd::prelude::*;

verus! {

/// The pattern of a function parameter.
#[derive(Clone, Debug, PartialEq, Eq)]
pub enum ParamPattern {
    /// A plain binding, `name` or `mut name`.
    Ident { is_mut: bool, name: String },
    /// Any other pattern (a tuple, a struct, a wildcard, ...).
    Other,
}

/// One parameter of a function declaration.
#[derive(Clone, Debug, PartialEq, Eq)]
pub enum FnParam {
    /// `pattern: ty`, with the type kept as source text.
    Typed { pattern: ParamPattern, ty: String },
    /// `self`, `&self`, `&mut self`, ...
    Receiver,
}

/// What the transformation reads of the annotated function's signature.
#[derive(Clone, Debug)]
pub struct FnSig {
    pub is_async: bool,
    pub params: Vec<FnParam>,
}

/// The options parameter of the annotated function: `[mut] name: ty`.
#[derive(Clone, Debug, PartialEq, Eq)]
pub struct Opt {
    pub is_mut: bool,
    pub name: String,
    pub type_: String,
}

/// The annotated function, once its signature was accepted.
#[derive(Clone, Debug, PartialEq, Eq)]
pub struct Main {
    pub is_async: bool,
    /// The options parameter; without one, only the generated flags are parsed.
    pub opt: Option<Opt>,
}

/// Why the annotated function's signature was refused.
#[derive(Clone, Copy, Debug, PartialEq, Eq, Structural)]
pub enum SigError {
    /// More than one parameter.
    TooManyParams,
    /// The parameter's pattern is not a plain binding.
    NotIdent,
    /// The parameter is a receiver rather than `name: Type`.
    NotTyped,
}

/// The options parameter that a function parameter declares.
pub open spec fn opt_of(p: FnParam) -> Result<Opt, SigError> {
    match p {
        FnParam::Typed { pattern, ty } => match pattern {
            ParamPattern::Ident { is_mut, name } => Ok(Opt { is_mut, name, type_: ty }),
            ParamPattern::Other => Err(SigError::NotIdent),
        },
        FnParam::Receiver => Err(SigError::NotTyped),
    }
}

/// The accepted form of a signature: at most one parameter, which is
/// `[mut] name: Type`.
pub open spec fn main_of(sig: FnSig) -> Result<Main, SigError> {
    if sig.params@.len() > 1 {
        Err(SigError::TooManyParams)
    } else if sig.params@.len() == 0 {
        Ok(Main { is_async: sig.is_async, opt: None })
    } else {
        match opt_of(sig.params@[0]) {
            Ok(o) => Ok(Main { is_async: sig.is_async, opt: Some(o) }),
            Err(e) => Err(e),
        }
    }
}

/// Reads the options parameter, which must be `[mut] name: Type`.
pub fn parse_opt_arg(input: &FnParam) -> (r: Result<Opt, SigError>)
    ensures
        r == opt_of(*input),
{
    match input {
        FnParam::Typed { pattern, ty } => match pattern {
            ParamPattern::Ident { is_mut, name } => Ok(
                Opt { is_mut: *is_mut, name: name.clone(), type_: ty.clone() },
            ),
            ParamPattern::Other => Err(SigError::NotIdent),
        },
        FnParam::Receiver => Err(SigError::NotTyped),
    }
}

impl Main {
    /// Accepts a signature with at most one parameter, of the form
    /// `[mut] name: Type`.
    pub fn parse(sig: &FnSig) -> (r: Result<Main, SigError>)
        ensures
            r == main_of(*sig),
    {
        if sig.params.len() > 1 {
            return Err(SigError::TooManyParams);
        }
        let opt = if sig.params.len() == 1 {
            match parse_opt_arg(&sig.params[0]) {
                Ok(o) => Some(o),
                Err(e) => {
                    return Err(e);
                },
            }
        } else {
            None
        };
        Ok(Main { is_async: sig.is_async, opt })
    }
}

/// A malformed parameter (a pattern other than a plain binding, or a
/// receiver) makes the transformation refuse the function.
pub proof fn lemma_malformed_param_refused(sig: FnSig)
    requires
        sig.params@.len() == 1,
        !(sig.params@[0] matches FnParam::Typed { pattern: ParamPattern::Ident { .. }, .. }),
    ensures
        main_of(sig) is Err,
{
}

} // verus!
