//! The records that a profile collects.

use vstd::prelude::*;
use crate::account::AccountId;
use crate::value::{duplicate_text, same_text, text_view, Value};

verus! {

/// An instant, in nanoseconds since the epoch.
pub type Timestamp = u64;

/// A period of education. Nothing relates the two instants: the end may lie
/// before the start.
#[derive(Debug)]
pub struct Education {
    pub school: String,
    pub college: Option<String>,
    pub major: Option<String>,
    pub started_at: Option<Timestamp>,
    pub ended_at: Option<Timestamp>,
}

/// What an [`Education`] holds.
pub struct EducationView {
    pub school: Seq<char>,
    pub college: Option<Seq<char>>,
    pub major: Option<Seq<char>>,
    pub started_at: Option<Timestamp>,
    pub ended_at: Option<Timestamp>,
}

impl View for Education {
    type V = EducationView;

    open spec fn view(&self) -> EducationView {
        EducationView {
            school: self.school@,
            college: text_view(self.college),
            major: text_view(self.major),
            started_at: self.started_at,
            ended_at: self.ended_at,
        }
    }
}

impl Value for Education {
    fn same(&self, other: &Education) -> (same: bool) {
        self.school == other.school && same_text(&self.college, &other.college) && same_text(
            &self.major,
            &other.major,
        ) && self.started_at == other.started_at && self.ended_at == other.ended_at
    }

    fn duplicate(&self) -> (copy: Education) {
        Education {
            school: self.school.clone(),
            college: duplicate_text(&self.college),
            major: duplicate_text(&self.major),
            started_at: self.started_at,
            ended_at: self.ended_at,
        }
    }
}

impl Clone for Education {
    fn clone(&self) -> (copy: Education)
        ensures
            copy@ == self@,
    {
        self.duplicate()
    }
}

impl PartialEq for Education {
    fn eq(&self, other: &Education) -> (same: bool) {
        self.same(other)
    }
}

impl Eq for Education {}

impl vstd::std_specs::cmp::PartialEqSpecImpl for Education {
    open spec fn obeys_eq_spec() -> bool {
        true
    }

    open spec fn eq_spec(&self, other: &Education) -> bool {
        self@ == other@
    }
}

/// A job. Nothing relates the two instants.
#[derive(Debug)]
pub struct Job {
    pub company: String,
    pub position: Option<String>,
    pub desc: Option<String>,
    pub started_at: Option<Timestamp>,
    pub ended_at: Option<Timestamp>,
}

/// What a [`Job`] holds.
pub struct JobView {
    pub company: Seq<char>,
    pub position: Option<Seq<char>>,
    pub desc: Option<Seq<char>>,
    pub started_at: Option<Timestamp>,
    pub ended_at: Option<Timestamp>,
}

impl View for Job {
    type V = JobView;

    open spec fn view(&self) -> JobView {
        JobView {
            company: self.company@,
            position: text_view(self.position),
            desc: text_view(self.desc),
            started_at: self.started_at,
            ended_at: self.ended_at,
        }
    }
}

impl Value for Job {
    fn same(&self, other: &Job) -> (same: bool) {
        self.company == other.company && same_text(&self.position, &other.position) && same_text(
            &self.desc,
            &other.desc,
        ) && self.started_at == other.started_at && self.ended_at == other.ended_at
    }

    fn duplicate(&self) -> (copy: Job) {
        Job {
            company: self.company.clone(),
            position: duplicate_text(&self.position),
            desc: duplicate_text(&self.desc),
            started_at: self.started_at,
            ended_at: self.ended_at,
        }
    }
}

impl Clone for Job {
    fn clone(&self) -> (copy: Job)
        ensures
            copy@ == self@,
    {
        self.duplicate()
    }
}

impl PartialEq for Job {
    fn eq(&self, other: &Job) -> (same: bool) {
        self.same(other)
    }
}

impl Eq for Job {}

impl vstd::std_specs::cmp::PartialEqSpecImpl for Job {
    open spec fn obeys_eq_spec() -> bool {
        true
    }

    open spec fn eq_spec(&self, other: &Job) -> bool {
        self@ == other@
    }
}

/// A remark left on a profile. The commentator is taken as written: it is
/// not held against the account that hands the comment in.
#[derive(Debug)]
pub struct Comment {
    pub commentator: AccountId,
    pub detail: String,
    pub update_at: Option<Timestamp>,
}

/// What a [`Comment`] holds.
pub struct CommentView {
    pub commentator: Seq<char>,
    pub detail: Seq<char>,
    pub update_at: Option<Timestamp>,
}

impl View for Comment {
    type V = CommentView;

    open spec fn view(&self) -> CommentView {
        CommentView {
            commentator: self.commentator@,
            detail: self.detail@,
            update_at: self.update_at,
        }
    }
}

impl Value for Comment {
    fn same(&self, other: &Comment) -> (same: bool) {
        self.commentator == other.commentator && self.detail == other.detail && self.update_at
            == other.update_at
    }

    fn duplicate(&self) -> (copy: Comment) {
        Comment {
            commentator: self.commentator.clone(),
            detail: self.detail.clone(),
            update_at: self.update_at,
        }
    }
}

impl Clone for Comment {
    fn clone(&self) -> (copy: Comment)
        ensures
            copy@ == self@,
    {
        self.duplicate()
    }
}

impl PartialEq for Comment {
    fn eq(&self, other: &Comment) -> (same: bool) {
        self.same(other)
    }
}

impl Eq for Comment {}

impl vstd::std_specs::cmp::PartialEqSpecImpl for Comment {
    open spec fn obeys_eq_spec() -> bool {
        true
    }

    open spec fn eq_spec(&self, other: &Comment) -> bool {
        self@ == other@
    }
}

/// A token issued by another contract: the contract's account and the
/// token's id there.
#[derive(Debug)]
pub struct NFTInfo {
    pub contract_id: AccountId,
    pub token_id: String,
}

/// What an [`NFTInfo`] holds.
pub struct NFTInfoView {
    pub contract_id: Seq<char>,
    pub token_id: Seq<char>,
}

impl View for NFTInfo {
    type V = NFTInfoView;

    open spec fn view(&self) -> NFTInfoView {
        NFTInfoView { contract_id: self.contract_id@, token_id: self.token_id@ }
    }
}

impl Value for NFTInfo {
    fn same(&self, other: &NFTInfo) -> (same: bool) {
        self.contract_id == other.contract_id && self.token_id == other.token_id
    }

    fn duplicate(&self) -> (copy: NFTInfo) {
        NFTInfo { contract_id: self.contract_id.clone(), token_id: self.token_id.clone() }
    }
}

impl Clone for NFTInfo {
    fn clone(&self) -> (copy: NFTInfo)
        ensures
            copy@ == self@,
    {
        self.duplicate()
    }
}

impl PartialEq for NFTInfo {
    fn eq(&self, other: &NFTInfo) -> (same: bool) {
        self.same(other)
    }
}

impl Eq for NFTInfo {}

impl vstd::std_specs::cmp::PartialEqSpecImpl for NFTInfo {
    open spec fn obeys_eq_spec() -> bool {
        true
    }

    open spec fn eq_spec(&self, other: &NFTInfo) -> bool {
        self@ == other@
    }
}

} // verus!
