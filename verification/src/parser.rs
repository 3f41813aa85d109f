//! Command-line flag parsing.
//!
//! The grammar is a fixed set of long flags, each taking its value as the
//! token that follows it: `--model <path>` and `--file <path>` (required),
//! `--language <code>`, `--temperature <float>`, `--n-threads <integer>`,
//! `--translate <bool>` and `--init-prompt <text>` (optional). The first
//! token of the process argument list is the program name and is skipped.
//! A missing required flag, an unknown or repeated flag, a flag without a
//! value, a stray positional token, or a malformed value is a fatal parse
//! error, reported with a usage message and a non-zero exit by the caller.

use vstd::prelude::*;
use crate::launch::is_flag_token;
use crate::request::Args;
use crate::strutil::{
    int_text_value, is_float_text, is_int_text, parse_bool, parse_i32, str_eq, str_is_float,
};

verus! {

/// Why an argument list was rejected.
#[derive(PartialEq, Eq, Structural, Clone, Copy, Debug)]
pub enum ParseError {
    /// A token that does not start with `--` stood where a flag was owed.
    UnexpectedArgument,
    /// A flag stood last, with no following value token.
    MissingValue,
    /// A flag that is not part of the grammar.
    UnknownFlag,
    /// A flag given more than once.
    DuplicateFlag,
    /// `--temperature` with a value that is not float literal text.
    InvalidTemperature,
    /// `--n-threads` with a value that is not a 32-bit integer.
    InvalidThreads,
    /// `--translate` with a value other than `true` or `false`.
    InvalidTranslate,
    /// The required `--model` flag was never given.
    MissingModel,
    /// The required `--file` flag was never given.
    MissingFile,
}

/// The flag values gathered so far, each still absent or present.
pub ghost struct ArgsView {
    pub model: Option<Seq<char>>,
    pub file: Option<Seq<char>>,
    pub language: Option<Seq<char>>,
    pub temperature: Option<Seq<char>>,
    pub n_threads: Option<int>,
    pub translate: Option<bool>,
    pub init_prompt: Option<Seq<char>>,
}

/// The gathering state before any token was read.
pub open spec fn empty_args_view() -> ArgsView {
    ArgsView {
        model: None,
        file: None,
        language: None,
        temperature: None,
        n_threads: None,
        translate: None,
        init_prompt: None,
    }
}

/// The end of the token list: both required flags must have been seen.
pub open spec fn finish_args(acc: ArgsView) -> Result<ArgsView, ParseError> {
    if acc.model is None {
        Err(ParseError::MissingModel)
    } else if acc.file is None {
        Err(ParseError::MissingFile)
    } else {
        Ok(acc)
    }
}

/// One parsing step: the head token must be a flag of the grammar, not yet
/// seen, followed by a well-formed value token; the rest is parsed with
/// the value recorded.
pub open spec fn parse_tokens(toks: Seq<Seq<char>>, acc: ArgsView) -> Result<
    ArgsView,
    ParseError,
>
    decreases toks.len(),
{
    if toks.len() == 0 {
        finish_args(acc)
    } else if !is_flag_token(toks[0]) {
        Err(ParseError::UnexpectedArgument)
    } else if toks.len() == 1 {
        Err(ParseError::MissingValue)
    } else {
        let name = toks[0];
        let value = toks[1];
        let rest = toks.skip(2);
        if name == "--model"@ {
            if acc.model is Some {
                Err(ParseError::DuplicateFlag)
            } else {
                parse_tokens(rest, ArgsView { model: Some(value), ..acc })
            }
        } else if name == "--file"@ {
            if acc.file is Some {
                Err(ParseError::DuplicateFlag)
            } else {
                parse_tokens(rest, ArgsView { file: Some(value), ..acc })
            }
        } else if name == "--language"@ {
            if acc.language is Some {
                Err(ParseError::DuplicateFlag)
            } else {
                parse_tokens(rest, ArgsView { language: Some(value), ..acc })
            }
        } else if name == "--temperature"@ {
            if acc.temperature is Some {
                Err(ParseError::DuplicateFlag)
            } else if !is_float_text(value) {
                Err(ParseError::InvalidTemperature)
            } else {
                parse_tokens(rest, ArgsView { temperature: Some(value), ..acc })
            }
        } else if name == "--n-threads"@ {
            if acc.n_threads is Some {
                Err(ParseError::DuplicateFlag)
            } else if !(is_int_text(value) && i32::MIN <= int_text_value(value)
                <= i32::MAX) {
                Err(ParseError::InvalidThreads)
            } else {
                parse_tokens(rest, ArgsView { n_threads: Some(int_text_value(value)), ..acc })
            }
        } else if name == "--translate"@ {
            if acc.translate is Some {
                Err(ParseError::DuplicateFlag)
            } else if value == "true"@ {
                parse_tokens(rest, ArgsView { translate: Some(true), ..acc })
            } else if value == "false"@ {
                parse_tokens(rest, ArgsView { translate: Some(false), ..acc })
            } else {
                Err(ParseError::InvalidTranslate)
            }
        } else if name == "--init-prompt"@ {
            if acc.init_prompt is Some {
                Err(ParseError::DuplicateFlag)
            } else {
                parse_tokens(rest, ArgsView { init_prompt: Some(value), ..acc })
            }
        } else {
            Err(ParseError::UnknownFlag)
        }
    }
}

/// The tokens the parser reads: the argument list with the leading program
/// name dropped.
pub open spec fn cli_tokens(args: Seq<Seq<char>>) -> Seq<Seq<char>> {
    if args.len() == 0 {
        Seq::empty()
    } else {
        args.skip(1)
    }
}

/// What the whole argument list parses to.
pub open spec fn parse_spec(args: Seq<Seq<char>>) -> Result<ArgsView, ParseError> {
    parse_tokens(cli_tokens(args), empty_args_view())
}

/// The view of a successfully parsed flag set.
pub open spec fn args_record_view(a: Args) -> ArgsView {
    ArgsView {
        model: Some(a.model@),
        file: Some(a.file@),
        language: match a.language {
            Some(l) => Some(l@),
            None => None,
        },
        temperature: match a.temperature {
            Some(t) => Some(t@),
            None => None,
        },
        n_threads: match a.n_threads {
            Some(n) => Some(n as int),
            None => None,
        },
        translate: a.translate,
        init_prompt: match a.init_prompt {
            Some(p) => Some(p@),
            None => None,
        },
    }
}

struct Gather {
    model: Option<String>,
    file: Option<String>,
    language: Option<String>,
    temperature: Option<String>,
    n_threads: Option<i32>,
    translate: Option<bool>,
    init_prompt: Option<String>,
}

impl Gather {
    spec fn view(&self) -> ArgsView {
        ArgsView {
            model: match self.model {
                Some(ref m) => Some(m@),
                None => None,
            },
            file: match self.file {
                Some(ref f) => Some(f@),
                None => None,
            },
            language: match self.language {
                Some(ref l) => Some(l@),
                None => None,
            },
            temperature: match self.temperature {
                Some(ref t) => Some(t@),
                None => None,
            },
            n_threads: match self.n_threads {
                Some(n) => Some(n as int),
                None => None,
            },
            translate: self.translate,
            init_prompt: match self.init_prompt {
                Some(ref p) => Some(p@),
                None => None,
            },
        }
    }
}

/// Parses the raw process argument list into the flag record, or reports
/// exactly why it is rejected.
pub fn parse_cli_args(args: &Vec<String>) -> (r: Result<Args, ParseError>)
    ensures
        match r {
            Ok(a) => parse_spec(args@.map_values(|s: String| s@)) == Ok::<
                ArgsView,
                ParseError,
            >(args_record_view(a)),
            Err(e) => parse_spec(args@.map_values(|s: String| s@)) == Err::<
                ArgsView,
                ParseError,
            >(e),
        },
{
    let ghost view: Seq<Seq<char>> = args@.map_values(|s: String| s@);
    let ghost toks: Seq<Seq<char>> = cli_tokens(view);
    let mut acc = Gather {
        model: None,
        file: None,
        language: None,
        temperature: None,
        n_threads: None,
        translate: None,
        init_prompt: None,
    };
    let mut i: usize = 1;
    proof {
        assert(toks.skip(0) =~= toks);
    }
    while i < args.len()
        invariant
            1 <= i,
            view == args@.map_values(|s: String| s@),
            toks == cli_tokens(view),
            args.len() == 0 ==> i == 1,
            args.len() >= 1 ==> i <= args.len(),
            parse_tokens(toks, empty_args_view()) == parse_tokens(
                toks.skip(i - 1),
                acc.view(),
            ),
        decreases args.len() - i,
    {
        proof {
            assert(view.len() >= 2);
            assert(toks =~= view.skip(1));
        }
        let ghost rem = toks.skip(i - 1);
        proof {
            assert(rem.len() == toks.len() - (i - 1));
            assert(rem[0] == toks[i - 1]);
            assert(toks[i - 1] == view[i as int]);
        }
        let name = &args[i];
        if !crate::launch::token_is_flag(name) {
            return Err(ParseError::UnexpectedArgument);
        }
        if i + 1 >= args.len() {
            proof {
                assert(rem.len() == 1);
            }
            return Err(ParseError::MissingValue);
        }
        proof {
            assert(rem[1] == toks[i as int]);
            assert(toks[i as int] == view[i + 1]);
            assert(rem.skip(2) =~= toks.skip(i + 1));
        }
        let value = args[i + 1].clone();
        if str_eq(name.as_str(), "--model") {
            if acc.model.is_some() {
                return Err(ParseError::DuplicateFlag);
            }
            acc.model = Some(value);
        } else if str_eq(name.as_str(), "--file") {
            if acc.file.is_some() {
                return Err(ParseError::DuplicateFlag);
            }
            acc.file = Some(value);
        } else if str_eq(name.as_str(), "--language") {
            if acc.language.is_some() {
                return Err(ParseError::DuplicateFlag);
            }
            acc.language = Some(value);
        } else if str_eq(name.as_str(), "--temperature") {
            if acc.temperature.is_some() {
                return Err(ParseError::DuplicateFlag);
            }
            if !str_is_float(value.as_str()) {
                return Err(ParseError::InvalidTemperature);
            }
            acc.temperature = Some(value);
        } else if str_eq(name.as_str(), "--n-threads") {
            if acc.n_threads.is_some() {
                return Err(ParseError::DuplicateFlag);
            }
            match parse_i32(value.as_str()) {
                Some(n) => {
                    acc.n_threads = Some(n);
                },
                None => {
                    return Err(ParseError::InvalidThreads);
                },
            }
        } else if str_eq(name.as_str(), "--translate") {
            if acc.translate.is_some() {
                return Err(ParseError::DuplicateFlag);
            }
            match parse_bool(value.as_str()) {
                Some(b) => {
                    acc.translate = Some(b);
                },
                None => {
                    return Err(ParseError::InvalidTranslate);
                },
            }
        } else if str_eq(name.as_str(), "--init-prompt") {
            if acc.init_prompt.is_some() {
                return Err(ParseError::DuplicateFlag);
            }
            acc.init_prompt = Some(value);
        } else {
            return Err(ParseError::UnknownFlag);
        }
        i += 2;
    }
    proof {
        assert(toks.skip(i - 1) =~= Seq::<Seq<char>>::empty());
    }
    let ghost gathered = acc.view();
    let Gather { model, file, language, temperature, n_threads, translate, init_prompt } = acc;
    let model = match model {
        Some(m) => m,
        None => {
            return Err(ParseError::MissingModel);
        },
    };
    let file = match file {
        Some(f) => f,
        None => {
            return Err(ParseError::MissingFile);
        },
    };
    let out = Args { model, file, language, temperature, n_threads, translate, init_prompt };
    proof {
        assert(args_record_view(out) == gathered);
    }
    Ok(out)
}

} // verus!
