//! Conditions that tell when a container is ready

use vstd::prelude::*;

verus! {

/// The output stream of a container in which a message is looked for.
#[derive(Clone, Copy, Debug, PartialEq, Eq, Structural)]
pub enum LogSource {
    /// The standard output of the container
    StdOut,
    /// The standard error of the container
    StdErr,
    /// Either of the two
    BothStd,
}

/// A condition that must be met before a container is considered ready.
///
/// A container that declares no condition is ready as soon as its start has been acknowledged.
#[derive(Debug)]
pub enum WaitFor {
    /// Wait for a message to appear in the container's logs.
    Log { source: LogSource, message: String },
    /// Wait for a fixed amount of time, in milliseconds.
    Duration { millis: u64 },
    /// Wait until the probe that the image defines reports the container as healthy.
    Healthcheck,
}

/// What a [`WaitFor`] stands for.
pub ghost enum WaitForView {
    Log { source: LogSource, message: Seq<char> },
    Duration { millis: u64 },
    Healthcheck,
}

impl View for WaitFor {
    type V = WaitForView;

    open spec fn view(&self) -> WaitForView {
        match self {
            WaitFor::Log { source, message } => WaitForView::Log {
                source: *source,
                message: message@,
            },
            WaitFor::Duration { millis } => WaitForView::Duration { millis: *millis },
            WaitFor::Healthcheck => WaitForView::Healthcheck,
        }
    }
}

impl DeepView for WaitFor {
    type V = WaitForView;

    open spec fn deep_view(&self) -> WaitForView {
        self@
    }
}

impl Clone for WaitFor {
    fn clone(&self) -> (copy: WaitFor)
        ensures
            copy@ == self@,
    {
        match self {
            WaitFor::Log { source, message } => WaitFor::Log {
                source: *source,
                message: message.clone(),
            },
            WaitFor::Duration { millis } => WaitFor::Duration { millis: *millis },
            WaitFor::Healthcheck => WaitFor::Healthcheck,
        }
    }
}

impl WaitFor {
    /// Wait for the message to appear on the container's standard output.
    pub fn message_on_stdout(message: &str) -> (wait: WaitFor)
        ensures
            wait@ == (WaitForView::Log { source: LogSource::StdOut, message: message@ }),
    {
        WaitFor::Log { source: LogSource::StdOut, message: message.to_owned() }
    }

    /// Wait for the message to appear on the container's standard error.
    pub fn message_on_stderr(message: &str) -> (wait: WaitFor)
        ensures
            wait@ == (WaitForView::Log { source: LogSource::StdErr, message: message@ }),
    {
        WaitFor::Log { source: LogSource::StdErr, message: message.to_owned() }
    }

    /// Wait for the message to appear on either output stream of the container.
    pub fn message_on_either_std(message: &str) -> (wait: WaitFor)
        ensures
            wait@ == (WaitForView::Log { source: LogSource::BothStd, message: message@ }),
    {
        WaitFor::Log { source: LogSource::BothStd, message: message.to_owned() }
    }

    /// Wait for the given number of milliseconds.
    pub fn millis(length: u64) -> (wait: WaitFor)
        ensures
            wait@ == (WaitForView::Duration { millis: length }),
    {
        WaitFor::Duration { millis: length }
    }

    /// Wait for the container to report itself healthy.
    pub fn healthcheck() -> (wait: WaitFor)
        ensures
            wait@ == WaitForView::Healthcheck,
    {
        WaitFor::Healthcheck
    }
}

/// Copies an optional condition.
pub fn clone_wait(wait: &Option<WaitFor>) -> (copy: Option<WaitFor>)
    ensures
        copy.deep_view() == wait.deep_view(),
{
    match wait {
        Some(condition) => Some(condition.clone()),
        None => None,
    }
}

} // verus!
