//! The records of a configuration: one per check, as the configuration lists
//! them.

use crate::check::{Check, CheckKind, CheckKindView, CheckView};
use vstd::prelude::*;

verus! {

/// A configured check on a file's presence.
#[derive(Debug)]
pub struct FileExists {
    pub points: i32,
    pub message: String,
    pub penalty_message: String,
    pub file_path: String,
    pub should_exist: bool,
}

/// A configured check on one line of a file.
#[derive(Debug)]
pub struct FileLineContains {
    pub points: i32,
    pub message: String,
    pub penalty_message: String,
    pub file_path: String,
    pub line: i32,
    pub line_content: String,
    pub should_contain: bool,
}

impl FileExists {
    /// The check that this record configures: not yet met, with the
    /// record's points, messages and parameters.
    pub open spec fn check(self) -> CheckView {
        CheckView {
            points: self.points as int,
            message: self.message@,
            penalty_message: self.penalty_message@,
            completed: false,
            kind: CheckKindView::FileExists {
                file_path: self.file_path@,
                should_exist: self.should_exist,
            },
        }
    }
}

impl FileExists {
    /// Makes the check that this record configures.
    pub fn into_check(self) -> (check: Check)
        ensures
            check@ == self.check(),
    {
        Check::new(
            self.points,
            self.message,
            self.penalty_message,
            false,
            CheckKind::FileExists { file_path: self.file_path, should_exist: self.should_exist },
        )
    }
}

impl FileLineContains {
    /// The check that this record configures: not yet met, with the
    /// record's points, messages and parameters.
    pub open spec fn check(self) -> CheckView {
        CheckView {
            points: self.points as int,
            message: self.message@,
            penalty_message: self.penalty_message@,
            completed: false,
            kind: CheckKindView::FileLineContains {
                file_path: self.file_path@,
                line: self.line as int,
                line_content: self.line_content@,
                should_contain: self.should_contain,
            },
        }
    }
}

impl FileLineContains {
    /// Makes the check that this record configures.
    pub fn into_check(self) -> (check: Check)
        ensures
            check@ == self.check(),
    {
        Check::new(
            self.points,
            self.message,
            self.penalty_message,
            false,
            CheckKind::FileLineContains {
                file_path: self.file_path,
                line: self.line,
                line_content: self.line_content,
                should_contain: self.should_contain,
            },
        )
    }
}

} // verus!
