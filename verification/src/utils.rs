//! Small helpers shared by the rest of the crate: the "fill if empty" string
//! extension and the status record the playback server answers with.

use vstd::prelude::*;
use vstd::string::StringExecFns;

verus! {

pub trait StringFeatures {
    /// The text held by the value.
    spec fn text(&self) -> Seq<char>;

    /// Appends `content` if the value is empty and leaves it alone otherwise.
    fn insert_if_empty(&mut self, content: &str)
        ensures
            final(self).text() == if old(self).text().len() == 0 {
                content@
            } else {
                old(self).text()
            },
    ;
}

impl StringFeatures for String {
    open spec fn text(&self) -> Seq<char> {
        self@
    }

    fn insert_if_empty(&mut self, content: &str) {
        if self.as_str().is_empty() {
            self.append(content);
            assert(self@ =~= content@);
        }
    }
}

/// Outcome kinds the playback server reports for a request.
#[derive(PartialEq, Eq, Debug, Clone, Copy, Structural)]
pub enum StatusOption {
    Success,
    OutOfRange,
    CoudntPreformAction,
    CoudntGetSHandler,
    CoudntSeek,
    CoudntPauseManager,
    CoudntPauseHandler,
    CoudntResumeManager,
    CoudntResumeHandler,
    WrongPath,
    CoudntReadMusicData,
}

/// A server answer: the outcome kind and a message for the user.
#[derive(Debug, Clone)]
pub struct RunStatus {
    pub error_messge: String,
    pub status_type: StatusOption,
}

impl RunStatus {
    pub fn new(msg: String, status: StatusOption) -> (r: Self)
        ensures
            r.error_messge == msg,
            r.status_type == status,
    {
        Self { error_messge: msg, status_type: status }
    }

    pub fn ok() -> (r: Self)
        ensures
            r.error_messge@.len() == 0,
            r.status_type == StatusOption::Success,
    {
        Self::new(String::new(), StatusOption::Success)
    }

    pub fn is_ok(&self) -> (b: bool)
        ensures
            b == (self.status_type == StatusOption::Success),
    {
        match self.status_type {
            StatusOption::Success => true,
            _ => false,
        }
    }

    pub fn handler_errror() -> (r: Self)
        ensures
            r.error_messge@ == "coudn't get stream handler!"@,
            r.status_type == StatusOption::CoudntGetSHandler,
    {
        RunStatus::new(
            String::from_str("coudn't get stream handler!"),
            StatusOption::CoudntGetSHandler,
        )
    }
}

} // verus!
