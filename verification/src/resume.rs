//! Resumes: the record, the input that creates or updates one, and the row
//! that the `resumes` table keeps for it.

use crate::ids::{ResumeId, UserId};
use vstd::prelude::*;

verus! {

/// A resume as callers see it.
#[derive(Debug, PartialEq, Eq)]
pub struct Resume {
    /// Assigned by the store when the resume is created; `None` before that.
    pub id: Option<ResumeId>,
    pub user_id: UserId,
    pub email: String,
    pub url: String,
    /// Set once the resume has been deleted. The row stays.
    pub is_delete: bool,
}

/// The model of a [`Resume`].
pub struct ResumeView {
    pub id: Option<int>,
    pub user_id: int,
    pub email: Seq<char>,
    pub url: Seq<char>,
    pub is_delete: bool,
}

/// What a caller supplies to create a resume, or to update the one that
/// belongs to `user_id`.
#[derive(Debug, PartialEq, Eq, Hash)]
pub struct ResumeInfo {
    pub user_id: UserId,
    pub email: String,
    pub url: String,
}

/// The model of a [`ResumeInfo`].
pub struct ResumeInfoView {
    pub user_id: int,
    pub email: Seq<char>,
    pub url: Seq<char>,
}

/// One row of the `resumes` table, column by column.
#[derive(Debug, PartialEq, Eq)]
pub struct ResumeRow {
    pub id: i32,
    pub user_id: i32,
    pub email: String,
    pub url: String,
    pub is_delete: bool,
}

/// The model of a [`ResumeRow`].
pub struct ResumeRowView {
    pub id: int,
    pub user_id: int,
    pub email: Seq<char>,
    pub url: Seq<char>,
    pub is_delete: bool,
}

impl View for Resume {
    type V = ResumeView;

    open spec fn view(&self) -> ResumeView {
        ResumeView {
            id: match self.id {
                Some(id) => Some(id.0 as int),
                None => None,
            },
            user_id: self.user_id.0 as int,
            email: self.email@,
            url: self.url@,
            is_delete: self.is_delete,
        }
    }
}

impl DeepView for Resume {
    type V = ResumeView;

    open spec fn deep_view(&self) -> ResumeView {
        self@
    }
}

impl View for ResumeInfo {
    type V = ResumeInfoView;

    open spec fn view(&self) -> ResumeInfoView {
        ResumeInfoView { user_id: self.user_id.0 as int, email: self.email@, url: self.url@ }
    }
}

impl View for ResumeRow {
    type V = ResumeRowView;

    open spec fn view(&self) -> ResumeRowView {
        ResumeRowView {
            id: self.id as int,
            user_id: self.user_id as int,
            email: self.email@,
            url: self.url@,
            is_delete: self.is_delete,
        }
    }
}

impl DeepView for ResumeRow {
    type V = ResumeRowView;

    open spec fn deep_view(&self) -> ResumeRowView {
        self@
    }
}

impl ResumeInfoView {
    /// The row that creating a resume from this input stores under `id`: the
    /// input's fields, and not deleted.
    pub open spec fn row(self, id: int) -> ResumeRowView {
        ResumeRowView {
            id,
            user_id: self.user_id,
            email: self.email,
            url: self.url,
            is_delete: false,
        }
    }
}

impl ResumeRowView {
    /// The resume that this row holds.
    pub open spec fn record(self) -> ResumeView {
        ResumeView {
            id: Some(self.id),
            user_id: self.user_id,
            email: self.email,
            url: self.url,
            is_delete: self.is_delete,
        }
    }

    /// This row once its resume has been deleted: flagged, and otherwise as
    /// it was.
    pub open spec fn marked_deleted(self) -> ResumeRowView {
        ResumeRowView { is_delete: true, ..self }
    }

    /// This row once `info` has updated it: the address and the link are
    /// those of `info`; the identifier, the owner and the flag stay.
    pub open spec fn revised(self, info: ResumeInfoView) -> ResumeRowView {
        ResumeRowView { email: info.email, url: info.url, ..self }
    }
}

impl Clone for Resume {
    fn clone(&self) -> (copy: Self)
        ensures
            copy == *self,
    {
        Resume {
            id: self.id,
            user_id: self.user_id,
            email: self.email.clone(),
            url: self.url.clone(),
            is_delete: self.is_delete,
        }
    }
}

impl Clone for ResumeInfo {
    fn clone(&self) -> (copy: Self)
        ensures
            copy == *self,
    {
        ResumeInfo { user_id: self.user_id, email: self.email.clone(), url: self.url.clone() }
    }
}

impl Clone for ResumeRow {
    fn clone(&self) -> (copy: Self)
        ensures
            copy == *self,
    {
        ResumeRow {
            id: self.id,
            user_id: self.user_id,
            email: self.email.clone(),
            url: self.url.clone(),
            is_delete: self.is_delete,
        }
    }
}

impl Resume {
    /// Maps a row of the `resumes` table to the resume it holds.
    pub fn from_row(row: ResumeRow) -> (resume: Resume)
        ensures
            resume@ == row@.record(),
    {
        Resume {
            id: Some(ResumeId(row.id)),
            user_id: UserId(row.user_id),
            email: row.email,
            url: row.url,
            is_delete: row.is_delete,
        }
    }
}

} // verus!
