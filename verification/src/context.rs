//! What one run of a test case has at hand: the client, the log, the rockets
//! it launched and the soft failures it recorded.

use std::fmt::Debug;
use vstd::prelude::*;
use vstd::std_specs::cmp::PartialEqSpec;

use crate::api::Api;
use crate::error::Error;
use crate::logger::{debug_text, LoggerRef};
use crate::rocket::{Launcher, RocketRef, RocketShared};

verus! {

/// The context of one run of a test case.
#[derive(Debug)]
pub struct TestCtx {
    pub jar: String,
    pub api: Api,
    pub errors: Vec<String>,
    pub logger: LoggerRef,
    pub bonus: bool,
    pub rockets: Vec<RocketShared>,
}

/// The message of a failed comparison.
pub open spec fn mismatch_message(expected: Seq<char>, got: Seq<char>, message: Seq<char>) -> Seq<
    char,
> {
    "Expected "@ + expected + " but got "@ + got + ": "@ + message
}

/// Writes the message of a failed comparison from the two values as they
/// are rendered and the caller's own words.
pub fn mismatch_text(expected: &str, got: &str, message: &str) -> (text: String)
    ensures
        text@ == mismatch_message(expected@, got@, message@),
{
    let mut text = "Expected ".to_owned();
    text.append(expected);
    text.append(" but got ");
    text.append(got);
    text.append(": ");
    text.append(message);
    text
}

impl TestCtx {
    /// The soft failures recorded so far, oldest first.
    pub open spec fn messages(&self) -> Seq<Seq<char>> {
        self.errors@.map_values(|message: String| message@)
    }

    /// Whether `self` differs from `before` in nothing but the soft
    /// failures.
    pub open spec fn same_but_errors(&self, before: TestCtx) -> bool {
        &&& self.jar == before.jar
        &&& self.api == before.api
        &&& self.logger == before.logger
        &&& self.bonus == before.bonus
        &&& self.rockets == before.rockets
    }

    /// Whether `self` differs from `before` in nothing but the rockets.
    pub open spec fn same_but_rockets(&self, before: TestCtx) -> bool {
        &&& self.jar == before.jar
        &&& self.api == before.api
        &&& self.logger == before.logger
        &&& self.bonus == before.bonus
        &&& self.errors == before.errors
    }

    /// A fresh context: no soft failure, no rocket.
    pub fn new(logger: LoggerRef, jar: String, api: Api, bonus: bool) -> (ctx: TestCtx)
        ensures
            ctx.jar == jar,
            ctx.api == api,
            ctx.logger == logger,
            ctx.bonus == bonus,
            ctx.errors@.len() == 0,
            ctx.rockets@.len() == 0,
    {
        TestCtx { jar, api, errors: Vec::new(), logger, bonus, rockets: Vec::new() }
    }

    /// The archive of the system under test.
    pub fn jar(&self) -> (path: &str)
        ensures
            path@ == self.jar@,
    {
        self.jar.as_str()
    }

    /// The command that launches the system under test, with no option set.
    pub fn launcher(&self) -> (launcher: Launcher)
        ensures
            launcher.program@ == "java"@,
            launcher.args_view() == crate::rocket::base_args(self.jar@, self.bonus),
            launcher.kill_on_drop,
    {
        Launcher::new(self)
    }

    /// Takes a rocket into the context, which kills it when the test case
    /// is over, and gives the handle under which it is known from now on.
    pub fn register_rocket(&mut self, rocket: RocketShared) -> (handle: RocketRef)
        ensures
            final(self).same_but_rockets(*old(self)),
            handle.0 == old(self).rockets.len(),
            final(self).rockets@ == old(self).rockets@.push(rocket),
    {
        let handle = RocketRef(self.rockets.len());
        self.rockets.push(rocket);
        handle
    }

    /// Records a soft failure and gives the error that carries its message,
    /// for the caller to pass up or to drop.
    pub fn fail(&mut self, message: &str) -> (failed: Result<(), Error>)
        ensures
            failed matches Err(Error::Check(text)) && text@ == message@,
            final(self).messages() == old(self).messages().push(message@),
            final(self).same_but_errors(*old(self)),
    {
        self.errors.push(message.to_owned());
        Err(Error::Check(message.to_owned()))
    }

    /// Does nothing if `passed`; records the soft failure `message` if not.
    pub fn check(&mut self, passed: bool, message: &str) -> (checked: Result<(), Error>)
        ensures
            passed ==> checked is Ok && *final(self) == *old(self),
            !passed ==> {
                &&& checked matches Err(Error::Check(text))
                &&& text@ == message@
                &&& final(self).messages() == old(self).messages().push(message@)
                &&& final(self).same_but_errors(*old(self))
            },
    {
        if passed {
            Ok(())
        } else {
            self.fail(message)
        }
    }

    /// Compares two values with `==`. If they differ, records a soft failure
    /// whose message holds both values, as their `Debug` implementations
    /// render them, and the caller's words.
    pub fn check_eq<Y: Debug, X: Debug + PartialEq<Y>>(
        &mut self,
        got: X,
        expected: Y,
        message: &str,
    ) -> (checked: Result<(), Error>)
        ensures
            X::obeys_eq_spec() ==> (checked is Ok <==> got.eq_spec(&expected)),
            checked is Ok ==> *final(self) == *old(self),
            checked is Err ==> {
                &&& final(self).same_but_errors(*old(self))
                &&& final(self).messages().len() == old(self).messages().len() + 1
                &&& final(self).messages().drop_last() == old(self).messages()
                &&& exists|e: Seq<char>, g: Seq<char>|
                    final(self).messages().last() == mismatch_message(e, g, message@)
                &&& checked matches Err(Error::Check(text))
                &&& text@ == final(self).messages().last()
            },
    {
        let passed = got == expected;
        let rendered_expected = debug_text(&expected);
        let rendered_got = debug_text(&got);
        let text = mismatch_text(rendered_expected.as_str(), rendered_got.as_str(), message);
        self.check(passed, text.as_str())
    }
}

} // verus!
