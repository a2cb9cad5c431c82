//! What holds of a profile over several operations, stated over what a
//! profile holds.

use vstd::prelude::*;
use crate::profile::{ProfileParts, ProfileView};
use crate::record::{CommentView, EducationView, JobView, NFTInfoView};
use crate::value_set::{
    inserted, lemma_distinct, lemma_distinct_keeps, lemma_inserted, lemma_inserted_again,
    lemma_inserted_once, views,
};

verus! {

/// A profile that was just made has the owner it was made for, no avatar,
/// no instant of a last update, and nothing in any collection.
pub proof fn law_fresh_profile(owner_id: Seq<char>)
    ensures
        ProfileView::fresh(owner_id).owner_id == owner_id,
        ProfileView::fresh(owner_id).avatar is None,
        ProfileView::fresh(owner_id).last_update_at is None,
        ProfileView::fresh(owner_id).nfts.len() == 0,
        ProfileView::fresh(owner_id).tags.len() == 0,
        ProfileView::fresh(owner_id).educations.len() == 0,
        ProfileView::fresh(owner_id).jobs.len() == 0,
        ProfileView::fresh(owner_id).poaps.len() == 0,
        ProfileView::fresh(owner_id).comments.len() == 0,
        ProfileView::fresh(owner_id).following.len() == 0,
        ProfileView::fresh(owner_id).follow_by.len() == 0,
        ProfileView::fresh(owner_id).wf(),
{
}

/// Adding a token twice leaves what adding it once leaves, and the
/// collection then holds it exactly once.
pub proof fn law_add_nft_twice(profile: ProfileView, nft: NFTInfoView)
    requires
        profile.wf(),
    ensures
        profile.with_nft(nft).with_nft(nft) == profile.with_nft(nft),
        profile.with_nft(nft).nfts.to_multiset().count(nft) == 1,
{
    lemma_inserted_again(profile.nfts, nft);
    lemma_inserted_once(profile.nfts, nft);
}

/// Adding a tag twice leaves what adding it once leaves, and the
/// collection then holds it exactly once.
pub proof fn law_add_tag_twice(profile: ProfileView, tag: Seq<char>)
    requires
        profile.wf(),
    ensures
        profile.with_tag(tag).with_tag(tag) == profile.with_tag(tag),
        profile.with_tag(tag).tags.to_multiset().count(tag) == 1,
{
    lemma_inserted_again(profile.tags, tag);
    lemma_inserted_once(profile.tags, tag);
}

/// Adding a period of education twice leaves what adding it once leaves, and the
/// collection then holds it exactly once.
pub proof fn law_add_education_twice(profile: ProfileView, education: EducationView)
    requires
        profile.wf(),
    ensures
        profile.with_education(education).with_education(education) == profile.with_education(education),
        profile.with_education(education).educations.to_multiset().count(education) == 1,
{
    lemma_inserted_again(profile.educations, education);
    lemma_inserted_once(profile.educations, education);
}

/// Adding a job twice leaves what adding it once leaves, and the
/// collection then holds it exactly once.
pub proof fn law_add_job_twice(profile: ProfileView, job: JobView)
    requires
        profile.wf(),
    ensures
        profile.with_job(job).with_job(job) == profile.with_job(job),
        profile.with_job(job).jobs.to_multiset().count(job) == 1,
{
    lemma_inserted_again(profile.jobs, job);
    lemma_inserted_once(profile.jobs, job);
}

/// Adding a proof of attendance twice leaves what adding it once leaves, and the
/// collection then holds it exactly once.
pub proof fn law_add_poap_twice(profile: ProfileView, poap: NFTInfoView)
    requires
        profile.wf(),
    ensures
        profile.with_poap(poap).with_poap(poap) == profile.with_poap(poap),
        profile.with_poap(poap).poaps.to_multiset().count(poap) == 1,
{
    lemma_inserted_again(profile.poaps, poap);
    lemma_inserted_once(profile.poaps, poap);
}

/// Adding a comment twice leaves what adding it once leaves, and the
/// collection then holds it exactly once.
pub proof fn law_add_comment_twice(profile: ProfileView, comment: CommentView)
    requires
        profile.wf(),
    ensures
        profile.with_comment(comment).with_comment(comment) == profile.with_comment(comment),
        profile.with_comment(comment).comments.to_multiset().count(comment) == 1,
{
    lemma_inserted_again(profile.comments, comment);
    lemma_inserted_once(profile.comments, comment);
}

/// Adding a followed account twice leaves what adding it once leaves, and the
/// collection then holds it exactly once.
pub proof fn law_add_following_twice(profile: ProfileView, account: Seq<char>)
    requires
        profile.wf(),
    ensures
        profile.with_following(account).with_following(account) == profile.with_following(account),
        profile.with_following(account).following.to_multiset().count(account) == 1,
{
    lemma_inserted_again(profile.following, account);
    lemma_inserted_once(profile.following, account);
}

/// A second avatar takes the place of the first: after two settings the
/// avatar is the second, and nothing of the first is left.
pub proof fn law_avatar_overwrites(profile: ProfileView, first: Seq<char>, second: Seq<char>)
    ensures
        profile.with_avatar(first).with_avatar(second) == profile.with_avatar(second),
        profile.with_avatar(first).with_avatar(second).avatar == Some(second),
{
}

/// Profiles share nothing. A token added to one profile is not among the
/// tokens of a profile that is made afterwards, and the later profile takes
/// the same token as if the first profile did not exist.
pub proof fn law_profiles_are_separate(first: ProfileView, owner_id: Seq<char>, nft: NFTInfoView)
    ensures
        first.with_nft(nft).nfts.contains(nft),
        !ProfileView::fresh(owner_id).nfts.contains(nft),
        ProfileView::fresh(owner_id).with_nft(nft).nfts == seq![nft],
{
    if !first.nfts.contains(nft) {
        assert(first.nfts.push(nft)[first.nfts.len() as int] == nft);
    }
}

/// No change reassigns the owner.
pub proof fn law_owner_is_fixed(
    profile: ProfileView,
    text: Seq<char>,
    nft: NFTInfoView,
    education: EducationView,
    job: JobView,
    comment: CommentView,
)
    ensures
        profile.with_avatar(text).owner_id == profile.owner_id,
        profile.with_nft(nft).owner_id == profile.owner_id,
        profile.with_tag(text).owner_id == profile.owner_id,
        profile.with_education(education).owner_id == profile.owner_id,
        profile.with_job(job).owner_id == profile.owner_id,
        profile.with_poap(nft).owner_id == profile.owner_id,
        profile.with_comment(comment).owner_id == profile.owner_id,
        profile.with_following(text).owner_id == profile.owner_id,
{
}

/// A change keeps every collection free of duplicates.
pub proof fn law_changes_keep_wf(
    profile: ProfileView,
    text: Seq<char>,
    nft: NFTInfoView,
    education: EducationView,
    job: JobView,
    comment: CommentView,
)
    requires
        profile.wf(),
    ensures
        profile.with_avatar(text).wf(),
        profile.with_nft(nft).wf(),
        profile.with_tag(text).wf(),
        profile.with_education(education).wf(),
        profile.with_job(job).wf(),
        profile.with_poap(nft).wf(),
        profile.with_comment(comment).wf(),
        profile.with_following(text).wf(),
{
    lemma_inserted(profile.nfts, nft);
    lemma_inserted(profile.tags, text);
    lemma_inserted(profile.educations, education);
    lemma_inserted(profile.jobs, job);
    lemma_inserted(profile.poaps, nft);
    lemma_inserted(profile.comments, comment);
    lemma_inserted(profile.following, text);
}

/// An insertion removes nothing and moves nothing: what a collection held
/// it still holds, at the same places.
pub proof fn law_nothing_is_removed<V>(items: Seq<V>, value: V)
    ensures
        items.is_prefix_of(inserted(items, value)),
{
}

/// A collection is a set: after an insertion it holds the value and what it
/// held before, and nothing else.
pub proof fn law_insertion_into_set<V>(items: Seq<V>, value: V)
    requires
        items.no_duplicates(),
    ensures
        inserted(items, value).to_set() == items.to_set().insert(value),
        inserted(items, value).no_duplicates(),
{
    lemma_inserted(items, value);
    assert(inserted(items, value).to_set() =~= items.to_set().insert(value));
}

/// The profile that stored values stand for is a valid profile, and each of
/// its collections holds exactly the values that the stored list names.
pub proof fn law_restored_profile(parts: ProfileParts)
    ensures
        parts.profile().wf(),
        parts.profile().nfts.to_set() == views(parts.nfts@).to_set(),
        parts.profile().tags.to_set() == views(parts.tags@).to_set(),
        parts.profile().educations.to_set() == views(parts.educations@).to_set(),
        parts.profile().jobs.to_set() == views(parts.jobs@).to_set(),
        parts.profile().poaps.to_set() == views(parts.poaps@).to_set(),
        parts.profile().comments.to_set() == views(parts.comments@).to_set(),
        parts.profile().following.to_set() == views(parts.following@).to_set(),
        parts.profile().follow_by.to_set() == views(parts.follow_by@).to_set(),
{
    lemma_distinct(views(parts.nfts@));
    lemma_distinct(views(parts.tags@));
    lemma_distinct(views(parts.educations@));
    lemma_distinct(views(parts.jobs@));
    lemma_distinct(views(parts.poaps@));
    lemma_distinct(views(parts.comments@));
    lemma_distinct(views(parts.following@));
    lemma_distinct(views(parts.follow_by@));
    assert(parts.profile().nfts.to_set() =~= views(parts.nfts@).to_set());
    assert(parts.profile().tags.to_set() =~= views(parts.tags@).to_set());
    assert(parts.profile().educations.to_set() =~= views(parts.educations@).to_set());
    assert(parts.profile().jobs.to_set() =~= views(parts.jobs@).to_set());
    assert(parts.profile().poaps.to_set() =~= views(parts.poaps@).to_set());
    assert(parts.profile().comments.to_set() =~= views(parts.comments@).to_set());
    assert(parts.profile().following.to_set() =~= views(parts.following@).to_set());
    assert(parts.profile().follow_by.to_set() =~= views(parts.follow_by@).to_set());
}

/// Stored lists that name no value twice come back as they are: a profile
/// that was written out as its collections list it is restored unchanged.
pub proof fn law_restore_keeps_lists(parts: ProfileParts)
    requires
        views(parts.nfts@).no_duplicates(),
        views(parts.tags@).no_duplicates(),
        views(parts.educations@).no_duplicates(),
        views(parts.jobs@).no_duplicates(),
        views(parts.poaps@).no_duplicates(),
        views(parts.comments@).no_duplicates(),
        views(parts.following@).no_duplicates(),
        views(parts.follow_by@).no_duplicates(),
    ensures
        parts.profile().nfts == views(parts.nfts@),
        parts.profile().tags == views(parts.tags@),
        parts.profile().educations == views(parts.educations@),
        parts.profile().jobs == views(parts.jobs@),
        parts.profile().poaps == views(parts.poaps@),
        parts.profile().comments == views(parts.comments@),
        parts.profile().following == views(parts.following@),
        parts.profile().follow_by == views(parts.follow_by@),
{
    lemma_distinct_keeps(views(parts.nfts@));
    lemma_distinct_keeps(views(parts.tags@));
    lemma_distinct_keeps(views(parts.educations@));
    lemma_distinct_keeps(views(parts.jobs@));
    lemma_distinct_keeps(views(parts.poaps@));
    lemma_distinct_keeps(views(parts.comments@));
    lemma_distinct_keeps(views(parts.following@));
    lemma_distinct_keeps(views(parts.follow_by@));
}

} // verus!
