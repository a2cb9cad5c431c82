//! The profile of one account and the operations on it.
//!
//! A profile has one owner, fixed when the profile is made. The avatar and
//! most collections are written by the owner alone: such an operation takes
//! the caller's account and refuses any caller but the owner before it
//! writes anything. Tags and comments are open to every caller, and every
//! read is.

use vstd::prelude::*;
use crate::account::AccountId;
use crate::error::ProfileError;
use crate::record::{
    Comment, CommentView, Education, EducationView, Job, JobView, NFTInfo, NFTInfoView, Timestamp,
};
use crate::value::{duplicate_text, text_view};
use crate::value_set::{distinct, inserted, views, ValueSet};

verus! {

/// What a profile holds. Each collection is given in the order in which its
/// values first arrived.
pub struct ProfileView {
    pub owner_id: Seq<char>,
    pub avatar: Option<Seq<char>>,
    pub nfts: Seq<NFTInfoView>,
    pub tags: Seq<Seq<char>>,
    pub educations: Seq<EducationView>,
    pub jobs: Seq<JobView>,
    pub poaps: Seq<NFTInfoView>,
    pub comments: Seq<CommentView>,
    pub following: Seq<Seq<char>>,
    pub follow_by: Seq<Seq<char>>,
    pub last_update_at: Option<Timestamp>,
}

impl ProfileView {
    /// The profile of `owner_id` as it is when made: no avatar, no instant
    /// of a last update, every collection empty.
    pub open spec fn fresh(owner_id: Seq<char>) -> ProfileView {
        ProfileView {
            owner_id,
            avatar: None,
            nfts: Seq::empty(),
            tags: Seq::empty(),
            educations: Seq::empty(),
            jobs: Seq::empty(),
            poaps: Seq::empty(),
            comments: Seq::empty(),
            following: Seq::empty(),
            follow_by: Seq::empty(),
            last_update_at: None,
        }
    }

    /// No collection holds a value twice.
    pub open spec fn wf(self) -> bool {
        &&& self.nfts.no_duplicates()
        &&& self.tags.no_duplicates()
        &&& self.educations.no_duplicates()
        &&& self.jobs.no_duplicates()
        &&& self.poaps.no_duplicates()
        &&& self.comments.no_duplicates()
        &&& self.following.no_duplicates()
        &&& self.follow_by.no_duplicates()
    }

    /// The profile with `url` as its avatar, in place of any earlier one.
    pub open spec fn with_avatar(self, url: Seq<char>) -> ProfileView {
        ProfileView { avatar: Some(url), ..self }
    }

    /// The profile with `nft` among its tokens.
    pub open spec fn with_nft(self, nft: NFTInfoView) -> ProfileView {
        ProfileView { nfts: inserted(self.nfts, nft), ..self }
    }

    /// The profile with `tag` among its tags.
    pub open spec fn with_tag(self, tag: Seq<char>) -> ProfileView {
        ProfileView { tags: inserted(self.tags, tag), ..self }
    }

    /// The profile with `education` among its periods of education.
    pub open spec fn with_education(self, education: EducationView) -> ProfileView {
        ProfileView { educations: inserted(self.educations, education), ..self }
    }

    /// The profile with `job` among its jobs.
    pub open spec fn with_job(self, job: JobView) -> ProfileView {
        ProfileView { jobs: inserted(self.jobs, job), ..self }
    }

    /// The profile with `poap` among its proofs of attendance.
    pub open spec fn with_poap(self, poap: NFTInfoView) -> ProfileView {
        ProfileView { poaps: inserted(self.poaps, poap), ..self }
    }

    /// The profile with `comment` among its comments.
    pub open spec fn with_comment(self, comment: CommentView) -> ProfileView {
        ProfileView { comments: inserted(self.comments, comment), ..self }
    }

    /// The profile with `account` among the accounts that it follows.
    pub open spec fn with_following(self, account: Seq<char>) -> ProfileView {
        ProfileView { following: inserted(self.following, account), ..self }
    }
}

/// The plain values of a profile, as a store keeps them between two calls.
/// A collection is kept as a list, and a list may name a value twice.
#[derive(Debug)]
pub struct ProfileParts {
    pub owner_id: AccountId,
    pub avatar: Option<String>,
    pub nfts: Vec<NFTInfo>,
    pub tags: Vec<String>,
    pub educations: Vec<Education>,
    pub jobs: Vec<Job>,
    pub poaps: Vec<NFTInfo>,
    pub comments: Vec<Comment>,
    pub following: Vec<AccountId>,
    pub follow_by: Vec<AccountId>,
    pub last_update_at: Option<Timestamp>,
}

impl ProfileParts {
    /// The profile that these values stand for: the same owner, avatar and
    /// instant, and in each collection every listed value once, at the place
    /// where the list first names it.
    pub open spec fn profile(self) -> ProfileView {
        ProfileView {
            owner_id: self.owner_id@,
            avatar: text_view(self.avatar),
            nfts: distinct(views(self.nfts@)),
            tags: distinct(views(self.tags@)),
            educations: distinct(views(self.educations@)),
            jobs: distinct(views(self.jobs@)),
            poaps: distinct(views(self.poaps@)),
            comments: distinct(views(self.comments@)),
            following: distinct(views(self.following@)),
            follow_by: distinct(views(self.follow_by@)),
            last_update_at: self.last_update_at,
        }
    }
}

/// The profile of one account.
#[derive(Debug)]
pub struct Profile {
    owner_id: AccountId,
    avatar: Option<String>,
    nfts: ValueSet<NFTInfo>,
    tags: ValueSet<String>,
    educations: ValueSet<Education>,
    jobs: ValueSet<Job>,
    poaps: ValueSet<NFTInfo>,
    comments: ValueSet<Comment>,
    following: ValueSet<AccountId>,
    follow_by: ValueSet<AccountId>,
    last_update_at: Option<Timestamp>,
}

impl View for Profile {
    type V = ProfileView;

    closed spec fn view(&self) -> ProfileView {
        ProfileView {
            owner_id: self.owner_id@,
            avatar: text_view(self.avatar),
            nfts: self.nfts@,
            tags: self.tags@,
            educations: self.educations@,
            jobs: self.jobs@,
            poaps: self.poaps@,
            comments: self.comments@,
            following: self.following@,
            follow_by: self.follow_by@,
            last_update_at: self.last_update_at,
        }
    }
}

impl Profile {
    /// Makes the profile of `owner_id`, with nothing in it.
    pub fn new(owner_id: AccountId) -> (profile: Profile)
        ensures
            profile@ == ProfileView::fresh(owner_id@),
            profile@.wf(),
    {
        Profile {
            owner_id,
            avatar: None,
            nfts: ValueSet::new(),
            tags: ValueSet::new(),
            educations: ValueSet::new(),
            jobs: ValueSet::new(),
            poaps: ValueSet::new(),
            comments: ValueSet::new(),
            following: ValueSet::new(),
            follow_by: ValueSet::new(),
            last_update_at: None,
        }
    }

    /// Makes the profile of `owner_id` in a slot that must be free:
    /// `occupied` says whether the slot holds a profile already, and if it
    /// does nothing is made.
    pub fn initialize(occupied: bool, owner_id: AccountId) -> (outcome: Result<
        Profile,
        ProfileError,
    >)
        ensures
            outcome is Err <==> occupied,
            outcome matches Err(error) ==> error == ProfileError::AlreadyInitialized,
            outcome matches Ok(profile) ==> profile@ == ProfileView::fresh(owner_id@)
                && profile@.wf(),
    {
        if occupied {
            Err(ProfileError::AlreadyInitialized)
        } else {
            Ok(Profile::new(owner_id))
        }
    }

    /// Makes the profile that `parts` stands for.
    pub fn restore(parts: ProfileParts) -> (profile: Profile)
        ensures
            profile@ == parts.profile(),
            profile@.wf(),
    {
        Profile {
            owner_id: parts.owner_id,
            avatar: parts.avatar,
            nfts: ValueSet::from_vec(parts.nfts),
            tags: ValueSet::from_vec(parts.tags),
            educations: ValueSet::from_vec(parts.educations),
            jobs: ValueSet::from_vec(parts.jobs),
            poaps: ValueSet::from_vec(parts.poaps),
            comments: ValueSet::from_vec(parts.comments),
            following: ValueSet::from_vec(parts.following),
            follow_by: ValueSet::from_vec(parts.follow_by),
            last_update_at: parts.last_update_at,
        }
    }

    /// The collections of a profile hold no value twice. Nothing is done at
    /// run time.
    fn no_value_twice(&self)
        ensures
            self@.wf(),
    {
        proof {
            use_type_invariant(&self.nfts);
            use_type_invariant(&self.tags);
            use_type_invariant(&self.educations);
            use_type_invariant(&self.jobs);
            use_type_invariant(&self.poaps);
            use_type_invariant(&self.comments);
            use_type_invariant(&self.following);
            use_type_invariant(&self.follow_by);
        }
    }

    /// Whether `caller` is the owner of this profile.
    pub fn is_owner(&self, caller: &AccountId) -> (yes: bool)
        ensures
            yes == (caller@ == self@.owner_id),
    {
        *caller == self.owner_id
    }

    /// The owner of this profile.
    pub fn get_owner_id(&self) -> (owner_id: AccountId)
        ensures
            owner_id@ == self@.owner_id,
    {
        self.owner_id.clone()
    }

    /// Sets the avatar to `url`, in place of any earlier one.
    /// Only the owner may do so.
    pub fn add_avatar(&mut self, caller: &AccountId, url: String) -> (outcome: Result<
        (),
        ProfileError,
    >)
        ensures
            caller@ == old(self)@.owner_id ==> {
                &&& outcome is Ok
                &&& final(self)@ == old(self)@.with_avatar(url@)
            },
            caller@ != old(self)@.owner_id ==> {
                &&& outcome == Err::<(), ProfileError>(ProfileError::Unauthorized)
                &&& final(self)@ == old(self)@
            },
            final(self)@.wf(),
    {
        self.no_value_twice();
        if !self.is_owner(caller) {
            return Err(ProfileError::Unauthorized);
        }
        self.avatar = Some(url);
        Ok(())
    }

    /// The avatar, if one was set.
    pub fn get_avatar(&self) -> (avatar: Option<String>)
        ensures
            text_view(avatar) == self@.avatar,
    {
        duplicate_text(&self.avatar)
    }

    /// Adds `nft` to the tokens, unless it is among them already.
    /// Only the owner may do so.
    pub fn add_nft(&mut self, caller: &AccountId, nft: NFTInfo) -> (outcome: Result<
        (),
        ProfileError,
    >)
        ensures
            caller@ == old(self)@.owner_id ==> {
                &&& outcome is Ok
                &&& final(self)@ == old(self)@.with_nft(nft@)
            },
            caller@ != old(self)@.owner_id ==> {
                &&& outcome == Err::<(), ProfileError>(ProfileError::Unauthorized)
                &&& final(self)@ == old(self)@
            },
            final(self)@.wf(),
    {
        self.no_value_twice();
        if !self.is_owner(caller) {
            return Err(ProfileError::Unauthorized);
        }
        self.nfts.insert(nft);
        Ok(())
    }

    /// The tokens, each once, in the order in which they were first added.
    pub fn get_nfts(&self) -> (nfts: Vec<NFTInfo>)
        ensures
            views(nfts@) == self@.nfts,
            self@.nfts.no_duplicates(),
    {
        self.nfts.to_vec()
    }

    /// Adds `tag` to the tags, unless it is among them already.
    /// Every caller may do so.
    pub fn add_tag(&mut self, tag: String)
        ensures
            final(self)@ == old(self)@.with_tag(tag@),
            final(self)@.wf(),
    {
        self.no_value_twice();
        self.tags.insert(tag);
    }

    /// The tags, each once, in the order in which they were first added.
    pub fn get_tags(&self) -> (tags: Vec<String>)
        ensures
            views(tags@) == self@.tags,
            self@.tags.no_duplicates(),
    {
        self.tags.to_vec()
    }

    /// Adds `education` to the periods of education, unless an equal one is
    /// among them already.
    /// Only the owner may do so.
    pub fn add_education(&mut self, caller: &AccountId, education: Education) -> (outcome: Result<
        (),
        ProfileError,
    >)
        ensures
            caller@ == old(self)@.owner_id ==> {
                &&& outcome is Ok
                &&& final(self)@ == old(self)@.with_education(education@)
            },
            caller@ != old(self)@.owner_id ==> {
                &&& outcome == Err::<(), ProfileError>(ProfileError::Unauthorized)
                &&& final(self)@ == old(self)@
            },
            final(self)@.wf(),
    {
        self.no_value_twice();
        if !self.is_owner(caller) {
            return Err(ProfileError::Unauthorized);
        }
        self.educations.insert(education);
        Ok(())
    }

    /// The periods of education, each once, in the order in which they were
    /// first added.
    pub fn get_educations(&self) -> (educations: Vec<Education>)
        ensures
            views(educations@) == self@.educations,
            self@.educations.no_duplicates(),
    {
        self.educations.to_vec()
    }

    /// Adds `job` to the jobs, unless an equal one is among them already.
    /// Only the owner may do so.
    pub fn add_job(&mut self, caller: &AccountId, job: Job) -> (outcome: Result<
        (),
        ProfileError,
    >)
        ensures
            caller@ == old(self)@.owner_id ==> {
                &&& outcome is Ok
                &&& final(self)@ == old(self)@.with_job(job@)
            },
            caller@ != old(self)@.owner_id ==> {
                &&& outcome == Err::<(), ProfileError>(ProfileError::Unauthorized)
                &&& final(self)@ == old(self)@
            },
            final(self)@.wf(),
    {
        self.no_value_twice();
        if !self.is_owner(caller) {
            return Err(ProfileError::Unauthorized);
        }
        self.jobs.insert(job);
        Ok(())
    }

    /// The jobs, each once, in the order in which they were first added.
    pub fn get_jobs(&self) -> (jobs: Vec<Job>)
        ensures
            views(jobs@) == self@.jobs,
            self@.jobs.no_duplicates(),
    {
        self.jobs.to_vec()
    }

    /// Adds `poap` to the proofs of attendance, unless it is among them
    /// already.
    /// Only the owner may do so.
    pub fn add_poap(&mut self, caller: &AccountId, poap: NFTInfo) -> (outcome: Result<
        (),
        ProfileError,
    >)
        ensures
            caller@ == old(self)@.owner_id ==> {
                &&& outcome is Ok
                &&& final(self)@ == old(self)@.with_poap(poap@)
            },
            caller@ != old(self)@.owner_id ==> {
                &&& outcome == Err::<(), ProfileError>(ProfileError::Unauthorized)
                &&& final(self)@ == old(self)@
            },
            final(self)@.wf(),
    {
        self.no_value_twice();
        if !self.is_owner(caller) {
            return Err(ProfileError::Unauthorized);
        }
        self.poaps.insert(poap);
        Ok(())
    }

    /// The proofs of attendance, each once, in the order in which they were
    /// first added.
    pub fn get_poaps(&self) -> (poaps: Vec<NFTInfo>)
        ensures
            views(poaps@) == self@.poaps,
            self@.poaps.no_duplicates(),
    {
        self.poaps.to_vec()
    }

    /// Adds `comment` to the comments, unless an equal one is among them
    /// already. The commentator named in it is not held against the caller.
    /// Every caller may do so.
    pub fn add_comment(&mut self, comment: Comment)
        ensures
            final(self)@ == old(self)@.with_comment(comment@),
            final(self)@.wf(),
    {
        self.no_value_twice();
        self.comments.insert(comment);
    }

    /// The comments, each once, in the order in which they were first added.
    pub fn get_comments(&self) -> (comments: Vec<Comment>)
        ensures
            views(comments@) == self@.comments,
            self@.comments.no_duplicates(),
    {
        self.comments.to_vec()
    }

    /// Adds `account` to the accounts that this profile follows, unless it is
    /// among them already.
    /// Only the owner may do so.
    pub fn add_following(&mut self, caller: &AccountId, account: AccountId) -> (outcome: Result<
        (),
        ProfileError,
    >)
        ensures
            caller@ == old(self)@.owner_id ==> {
                &&& outcome is Ok
                &&& final(self)@ == old(self)@.with_following(account@)
            },
            caller@ != old(self)@.owner_id ==> {
                &&& outcome == Err::<(), ProfileError>(ProfileError::Unauthorized)
                &&& final(self)@ == old(self)@
            },
            final(self)@.wf(),
    {
        self.no_value_twice();
        if !self.is_owner(caller) {
            return Err(ProfileError::Unauthorized);
        }
        self.following.insert(account);
        Ok(())
    }

    /// The accounts that this profile follows, each once, in the order in
    /// which they were first added.
    pub fn get_following(&self) -> (following: Vec<AccountId>)
        ensures
            views(following@) == self@.following,
            self@.following.no_duplicates(),
    {
        self.following.to_vec()
    }

    /// The accounts that follow this profile, each once, in the order in which
    /// they were recorded. No operation of a profile writes them: they come
    /// with the stored form that a profile is restored from.
    pub fn get_follow_by(&self) -> (follow_by: Vec<AccountId>)
        ensures
            views(follow_by@) == self@.follow_by,
            self@.follow_by.no_duplicates(),
    {
        self.follow_by.to_vec()
    }

    /// The instant of the last update, if one was recorded. No operation of
    /// a profile records one: it comes with the stored form that a profile
    /// is restored from.
    pub fn get_last_update_at(&self) -> (instant: Option<Timestamp>)
        ensures
            instant == self@.last_update_at,
    {
        self.last_update_at
    }
}

} // verus!
