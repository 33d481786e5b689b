//! Configuration of the silence wrapper: where standard output goes while the
//! wrapped update runs, and the builder that assembles the wrapper.
use crate::redirect::{Phase, Platform, Redirect};
use vstd::prelude::*;

verus! {

/// Where the wrapped update's standard output (fd 1) is sent while it runs.
///
/// The redirect is applied at the file-descriptor level and therefore also
/// captures output from child processes and native libraries.
#[derive(Clone, Copy, Debug, PartialEq, Eq, Structural)]
pub enum Sink {
    /// Fold stdout into the process's standard error (fd 2). This is the default.
    Stderr,
    /// Discard stdout entirely (`/dev/null` on Unix, `NUL` on Windows).
    Null,
}

impl Default for Sink {
    /// The default sink keeps the output as diagnostics on standard error.
    fn default() -> (s: Sink)
        ensures
            s == Sink::Stderr,
    {
        Sink::Stderr
    }
}

/// The errors of the wrapper: the same variants, with the same meaning, as
/// the update errors that the wrapped backend reports.
#[derive(Debug)]
pub enum Error {
    /// The wrapper was configured incompletely.
    Config(String),
    /// Diverting standard output failed; the message names the step.
    Release(String),
}

/// The sink a builder produces: the one chosen, else the default.
pub open spec fn chosen_sink(sink: Option<Sink>) -> Sink {
    match sink {
        Some(s) => s,
        None => Sink::Stderr,
    }
}

/// The message of the error that `build` reports without a backend.
pub open spec fn missing_backend_message() -> Seq<char> {
    "`release_update` required"@
}

/// Builder for a silence [`Update`].
///
/// Configure the wrapped backend `R` and, optionally, the redirect [`Sink`],
/// then call [`build`](Self::build).
pub struct UpdateBuilder<R> {
    release_update: Option<R>,
    sink: Option<Sink>,
}

impl<R> UpdateBuilder<R> {
    /// The backend set so far, if any.
    pub closed spec fn release_update_spec(&self) -> Option<R> {
        self.release_update
    }

    /// The sink set so far, if any.
    pub closed spec fn sink_spec(&self) -> Option<Sink> {
        self.sink
    }

    /// Initialize a new builder, with nothing set.
    pub fn new() -> (b: Self)
        ensures
            b.release_update_spec() is None,
            b.sink_spec() is None,
    {
        UpdateBuilder { release_update: None, sink: None }
    }

    /// Set the release update implementation to wrap. Required.
    pub fn release_update(&mut self, release_update: R) -> (b: &mut Self)
        ensures
            b.release_update_spec() == Some(release_update),
            b.sink_spec() == old(self).sink_spec(),
            *final(self) == *final(b),
    {
        self.release_update = Some(release_update);
        self
    }

    /// Set where fd 1 is redirected while the update runs. Defaults to
    /// [`Sink::Stderr`].
    pub fn sink(&mut self, sink: Sink) -> (b: &mut Self)
        ensures
            b.release_update_spec() == old(self).release_update_spec(),
            b.sink_spec() == Some(sink),
            *final(self) == *final(b),
    {
        self.sink = Some(sink);
        self
    }

    /// Confirm the configuration and create the wrapper. The backend is
    /// moved out of the builder.
    ///
    /// * Errors:
    ///     * Config - `release_update` was not provided
    pub fn build(&mut self) -> (r: Result<Update<R>, Error>)
        ensures
            final(self).release_update_spec() is None,
            final(self).sink_spec() == old(self).sink_spec(),
            match old(self).release_update_spec() {
                Some(inner) => r matches Ok(u) && u.inner_spec() == inner && u.sink_spec()
                    == chosen_sink(old(self).sink_spec()),
                None => r matches Err(Error::Config(m)) && m@ == missing_backend_message(),
            },
    {
        match self.release_update.take() {
            Some(inner) => {
                let sink = match self.sink {
                    Some(s) => s,
                    None => Sink::default(),
                };
                Ok(Update { inner, sink })
            },
            None => Err(Error::Config(String::from_str("`release_update` required"))),
        }
    }
}

impl<R> Default for UpdateBuilder<R> {
    /// A builder with nothing set.
    fn default() -> (b: Self)
        ensures
            b.release_update_spec() is None,
            b.sink_spec() is None,
    {
        UpdateBuilder::new()
    }
}

/// Wraps a release update `R` and redirects fd 1 to a [`Sink`] while it runs.
pub struct Update<R> {
    inner: R,
    sink: Sink,
}

impl<R> Update<R> {
    /// The wrapped update.
    pub closed spec fn inner_spec(&self) -> R {
        self.inner
    }

    /// The sink fd 1 is redirected to.
    pub closed spec fn sink_spec(&self) -> Sink {
        self.sink
    }

    /// Initialize a new `Update` builder.
    pub fn configure() -> (b: UpdateBuilder<R>)
        ensures
            b.release_update_spec() is None,
            b.sink_spec() is None,
    {
        UpdateBuilder::new()
    }

    /// The [`Sink`] fd 1 is redirected to while the wrapped update runs.
    pub fn sink(&self) -> (s: Sink)
        ensures
            s == self.sink_spec(),
    {
        self.sink
    }

    /// A redirect session on `platform` that diverts fd 1 to this wrapper's
    /// sink while the wrapped update runs.
    pub fn session(&self, platform: Platform) -> (r: Redirect)
        ensures
            r.platform_spec() == platform,
            r.sink_spec() == self.sink_spec(),
            r.phase_spec() == Phase::Start,
    {
        Redirect::start(platform, self.sink)
    }

    /// The wrapped update, to which the update and all metadata are delegated.
    pub fn inner(&self) -> (r: &R)
        ensures
            *r == self.inner_spec(),
    {
        &self.inner
    }
}

} // verus!
