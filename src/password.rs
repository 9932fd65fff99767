//! Where the password comes from, and the one line of text it is cut from.
use vstd::prelude::*;
use vstd::string::StringSliceAdditionalSpecFns;
use vstd::utf8::{
    encode_utf8, encode_utf8_valid_utf8, is_char_boundary_iff_not_is_continuation_byte,
    is_char_boundary_start_end_of_seq,
};

use crate::line::{find_line_end, lemma_line_end, line_end};

verus! {

/// A filesystem path; the library only carries it from the caller back to
/// the caller, which opens it.
#[verifier::external_type_specification]
#[verifier::external_body]
pub struct ExPathBuf(std::path::PathBuf);

/// Exit code when more than one password source is named.
pub const EXIT_CONFLICTING_ARGUMENTS: i32 = 2;

/// Where the password is to be read from.
#[derive(Debug)]
pub enum PasswordSource {
    /// The first line of standard input.
    Stdin,
    /// The first line of a file.
    File(std::path::PathBuf),
    /// The first line read from an already open file descriptor.
    Fd(i32),
    /// Given on the command line.
    Direct(String),
    /// The value of an environment variable, which is removed once read.
    Env(String),
}

/// How many of the optional sources are named.
pub open spec fn named_sources(
    direct: Option<String>,
    env: Option<String>,
    file: Option<std::path::PathBuf>,
    fd: Option<i32>,
) -> nat {
    (if direct is Some { 1nat } else { 0nat }) + (if env is Some { 1nat } else { 0nat }) + (if file
        is Some { 1nat } else { 0nat }) + (if fd is Some { 1nat } else { 0nat })
}

/// The source chosen from the named ones: the only one, standard input when
/// none is named, and the conflicting-arguments exit code when several are.
pub open spec fn chosen_source(
    direct: Option<String>,
    env: Option<String>,
    file: Option<std::path::PathBuf>,
    fd: Option<i32>,
) -> Result<PasswordSource, i32> {
    if named_sources(direct, env, file, fd) >= 2 {
        Err(EXIT_CONFLICTING_ARGUMENTS)
    } else if direct is Some {
        Ok(PasswordSource::Direct(direct->0))
    } else if env is Some {
        Ok(PasswordSource::Env(env->0))
    } else if file is Some {
        Ok(PasswordSource::File(file->0))
    } else if fd is Some {
        Ok(PasswordSource::Fd(fd->0))
    } else {
        Ok(PasswordSource::Stdin)
    }
}

/// Picks the password source from the options given: a direct password, an
/// environment variable's name, a file's path, a file descriptor.
pub fn determine_password_source(
    direct: Option<String>,
    env: Option<String>,
    file: Option<std::path::PathBuf>,
    fd: Option<i32>,
) -> (r: Result<PasswordSource, i32>)
    ensures
        r == chosen_source(direct, env, file, fd),
{
    let mut named: usize = 0;
    if direct.is_some() {
        named = named + 1;
    }
    if env.is_some() {
        named = named + 1;
    }
    if file.is_some() {
        named = named + 1;
    }
    if fd.is_some() {
        named = named + 1;
    }
    if named >= 2 {
        return Err(EXIT_CONFLICTING_ARGUMENTS);
    }
    match direct {
        Some(pw) => Ok(PasswordSource::Direct(pw)),
        None => match env {
            Some(var) => Ok(PasswordSource::Env(var)),
            None => match file {
                Some(path) => Ok(PasswordSource::File(path)),
                None => match fd {
                    Some(n) => Ok(PasswordSource::Fd(n)),
                    None => Ok(PasswordSource::Stdin),
                },
            },
        },
    }
}

/// The text of `s` up to its first newline, which is dropped with all that
/// follows it; carriage returns and spaces are kept.
pub fn first_line(s: &str) -> (r: String)
    ensures
        encode_utf8(r@) == s.spec_bytes().take(line_end(s.spec_bytes()) as int),
{
    let bytes = s.as_bytes();
    let end = find_line_end(bytes);
    proof {
        encode_utf8_valid_utf8(s@);
        lemma_line_end(bytes@);
        if end < bytes@.len() {
            is_char_boundary_iff_not_is_continuation_byte(bytes@, end as int);
        } else {
            is_char_boundary_start_end_of_seq(bytes@);
        }
    }
    let (head, _rest) = s.split_at(end);
    head.to_owned()
}

} // verus!
