use profile_store::{
    AccountId, Comment, Education, Job, NFTInfo, Profile, ProfileError, ProfileParts,
};

fn account(name: &str) -> AccountId {
    AccountId::new(name.to_string())
}

fn mit() -> Education {
    Education {
        school: "MIT".to_string(),
        college: None,
        major: None,
        started_at: None,
        ended_at: None,
    }
}

fn job(company: &str) -> Job {
    Job {
        company: company.to_string(),
        position: Some("engineer".to_string()),
        desc: None,
        started_at: Some(1_600_000_000_000_000_000),
        ended_at: None,
    }
}

fn token(contract: &str, id: &str) -> NFTInfo {
    NFTInfo { contract_id: account(contract), token_id: id.to_string() }
}

fn comment(who: &str, detail: &str) -> Comment {
    Comment { commentator: account(who), detail: detail.to_string(), update_at: Some(7) }
}

/// A profile of alice with one value in every collection that she can write.
fn filled() -> Profile {
    let alice = account("alice");
    let mut profile = Profile::new(account("alice"));
    profile.add_avatar(&alice, "http://a.example/1.png".to_string()).unwrap();
    profile.add_nft(&alice, token("nft.near", "1")).unwrap();
    profile.add_tag("rust".to_string());
    profile.add_education(&alice, mit()).unwrap();
    profile.add_job(&alice, job("acme")).unwrap();
    profile.add_poap(&alice, token("poap.near", "9")).unwrap();
    profile.add_comment(comment("bob", "hello"));
    profile.add_following(&alice, account("carol")).unwrap();
    profile
}

fn assert_filled_unchanged(profile: &Profile) {
    assert_eq!(profile.get_owner_id(), account("alice"));
    assert_eq!(profile.get_avatar(), Some("http://a.example/1.png".to_string()));
    assert_eq!(profile.get_nfts(), vec![token("nft.near", "1")]);
    assert_eq!(profile.get_tags(), vec!["rust".to_string()]);
    assert_eq!(profile.get_educations(), vec![mit()]);
    assert_eq!(profile.get_jobs(), vec![job("acme")]);
    assert_eq!(profile.get_poaps(), vec![token("poap.near", "9")]);
    assert_eq!(profile.get_comments(), vec![comment("bob", "hello")]);
    assert_eq!(profile.get_following(), vec![account("carol")]);
    assert_eq!(profile.get_follow_by(), Vec::<AccountId>::new());
    assert_eq!(profile.get_last_update_at(), None);
}

#[test]
fn filled_profile_reads_back() {
    assert_filled_unchanged(&filled());
}

#[test]
fn stranger_cannot_set_avatar() {
    let mut profile = filled();
    let outcome = profile.add_avatar(&account("bob"), "http://b.example/2.png".to_string());
    assert_eq!(outcome, Err(ProfileError::Unauthorized));
    assert_filled_unchanged(&profile);
}

#[test]
fn stranger_cannot_add_nft() {
    let mut profile = filled();
    let outcome = profile.add_nft(&account("bob"), token("nft.near", "2"));
    assert_eq!(outcome, Err(ProfileError::Unauthorized));
    assert_filled_unchanged(&profile);
}

#[test]
fn stranger_cannot_add_education() {
    let mut profile = filled();
    let mut other = mit();
    other.school = "ETH".to_string();
    let outcome = profile.add_education(&account("bob"), other);
    assert_eq!(outcome, Err(ProfileError::Unauthorized));
    assert_filled_unchanged(&profile);
}

#[test]
fn stranger_cannot_add_job() {
    let mut profile = filled();
    let outcome = profile.add_job(&account("bob"), job("globex"));
    assert_eq!(outcome, Err(ProfileError::Unauthorized));
    assert_filled_unchanged(&profile);
}

#[test]
fn stranger_cannot_add_poap() {
    let mut profile = filled();
    let outcome = profile.add_poap(&account("bob"), token("poap.near", "10"));
    assert_eq!(outcome, Err(ProfileError::Unauthorized));
    assert_filled_unchanged(&profile);
}

#[test]
fn stranger_cannot_add_following() {
    let mut profile = filled();
    let outcome = profile.add_following(&account("bob"), account("dave"));
    assert_eq!(outcome, Err(ProfileError::Unauthorized));
    assert_filled_unchanged(&profile);
}

#[test]
fn owner_is_told_apart_by_name_alone() {
    let profile = Profile::new(account("alice"));
    assert!(profile.is_owner(&account("alice")));
    assert!(!profile.is_owner(&account("bob")));
    assert!(!profile.is_owner(&account("alice.near")));
    assert!(!profile.is_owner(&account("Alice")));
    assert!(!profile.is_owner(&account("")));
}

#[test]
fn new_profile_is_empty() {
    let profile = Profile::new(account("alice"));
    assert_eq!(profile.get_owner_id(), account("alice"));
    assert_eq!(profile.get_avatar(), None);
    assert_eq!(profile.get_last_update_at(), None);
    assert!(profile.get_nfts().is_empty());
    assert!(profile.get_tags().is_empty());
    assert!(profile.get_educations().is_empty());
    assert!(profile.get_jobs().is_empty());
    assert!(profile.get_poaps().is_empty());
    assert!(profile.get_comments().is_empty());
    assert!(profile.get_following().is_empty());
    assert!(profile.get_follow_by().is_empty());
}

#[test]
fn initialize_makes_a_profile_in_a_free_slot() {
    let profile = Profile::initialize(false, account("alice")).unwrap();
    assert_eq!(profile.get_owner_id(), account("alice"));
    assert_eq!(profile.get_avatar(), None);
    assert!(profile.get_nfts().is_empty());
    assert!(profile.get_tags().is_empty());
    assert!(profile.get_comments().is_empty());
}

#[test]
fn initialize_refuses_an_occupied_slot() {
    let outcome = Profile::initialize(true, account("alice"));
    assert!(matches!(outcome, Err(ProfileError::AlreadyInitialized)));
}

#[test]
fn errors_have_their_messages() {
    assert_eq!(ProfileError::Unauthorized.message(), "Owner's method");
    assert_eq!(
        ProfileError::AlreadyInitialized.message(),
        "The contract has already been initialized"
    );
    assert_ne!(ProfileError::Unauthorized, ProfileError::AlreadyInitialized);
}

#[test]
fn tag_added_twice_is_held_once() {
    let mut profile = Profile::new(account("alice"));
    profile.add_tag("x".to_string());
    profile.add_tag("x".to_string());
    let tags = profile.get_tags();
    assert_eq!(tags.iter().filter(|tag| tag.as_str() == "x").count(), 1);
    assert_eq!(tags, vec!["x".to_string()]);
}

#[test]
fn nft_added_twice_is_held_once() {
    let alice = account("alice");
    let mut profile = Profile::new(account("alice"));
    assert_eq!(profile.add_nft(&alice, token("nft.near", "1")), Ok(()));
    assert_eq!(profile.add_nft(&alice, token("nft.near", "1")), Ok(()));
    assert_eq!(profile.get_nfts(), vec![token("nft.near", "1")]);
}

#[test]
fn education_added_twice_is_held_once() {
    let alice = account("alice");
    let mut profile = Profile::new(account("alice"));
    assert_eq!(profile.add_education(&alice, mit()), Ok(()));
    assert_eq!(profile.add_education(&alice, mit()), Ok(()));
    assert_eq!(profile.get_educations(), vec![mit()]);
}

#[test]
fn job_added_twice_is_held_once() {
    let alice = account("alice");
    let mut profile = Profile::new(account("alice"));
    assert_eq!(profile.add_job(&alice, job("acme")), Ok(()));
    assert_eq!(profile.add_job(&alice, job("acme")), Ok(()));
    assert_eq!(profile.get_jobs(), vec![job("acme")]);
}

#[test]
fn poap_added_twice_is_held_once() {
    let alice = account("alice");
    let mut profile = Profile::new(account("alice"));
    assert_eq!(profile.add_poap(&alice, token("poap.near", "9")), Ok(()));
    assert_eq!(profile.add_poap(&alice, token("poap.near", "9")), Ok(()));
    assert_eq!(profile.get_poaps(), vec![token("poap.near", "9")]);
}

#[test]
fn comment_added_twice_is_held_once() {
    let mut profile = Profile::new(account("alice"));
    profile.add_comment(comment("bob", "hello"));
    profile.add_comment(comment("bob", "hello"));
    assert_eq!(profile.get_comments(), vec![comment("bob", "hello")]);
}

#[test]
fn following_added_twice_is_held_once() {
    let alice = account("alice");
    let mut profile = Profile::new(account("alice"));
    assert_eq!(profile.add_following(&alice, account("carol")), Ok(()));
    assert_eq!(profile.add_following(&alice, account("carol")), Ok(()));
    assert_eq!(profile.get_following(), vec![account("carol")]);
}

#[test]
fn second_avatar_replaces_the_first() {
    let alice = account("alice");
    let mut profile = Profile::new(account("alice"));
    profile.add_avatar(&alice, "http://a.example/1.png".to_string()).unwrap();
    profile.add_avatar(&alice, "http://a.example/2.png".to_string()).unwrap();
    assert_eq!(profile.get_avatar(), Some("http://a.example/2.png".to_string()));
}

#[test]
fn tags_and_comments_need_no_owner() {
    // Nobody in this test acts as alice: the two operations take no caller.
    let mut profile = Profile::new(account("alice"));
    profile.add_tag("friendly".to_string());
    profile.add_comment(comment("bob", "nice profile"));
    profile.add_comment(comment("mallory", "signed as someone else"));
    assert_eq!(profile.get_tags(), vec!["friendly".to_string()]);
    assert_eq!(
        profile.get_comments(),
        vec![comment("bob", "nice profile"), comment("mallory", "signed as someone else")]
    );
}

#[test]
fn profiles_do_not_share_collections() {
    let mut first = Profile::new(account("alice"));
    first.add_nft(&account("alice"), token("nft.near", "1")).unwrap();

    let mut second = Profile::new(account("bob"));
    assert!(second.get_nfts().is_empty());
    second.add_nft(&account("bob"), token("nft.near", "1")).unwrap();
    second.add_nft(&account("bob"), token("nft.near", "2")).unwrap();

    assert_eq!(first.get_nfts(), vec![token("nft.near", "1")]);
    assert_eq!(second.get_nfts(), vec![token("nft.near", "1"), token("nft.near", "2")]);
}

#[test]
fn education_scenario() {
    let alice = account("alice");
    let bob = account("bob");
    let mut profile = Profile::new(account("alice"));

    assert_eq!(profile.add_education(&alice, mit()), Ok(()));
    assert_eq!(profile.get_educations(), vec![mit()]);

    assert_eq!(profile.add_education(&bob, mit()), Err(ProfileError::Unauthorized));
    assert_eq!(profile.get_educations(), vec![mit()]);
}

#[test]
fn values_are_listed_in_order_of_arrival() {
    let alice = account("alice");
    let mut profile = Profile::new(account("alice"));
    for name in ["zeta", "alpha", "mid", "alpha", "zeta", "omega"] {
        profile.add_tag(name.to_string());
        profile.add_following(&alice, account(name)).unwrap();
    }
    let expected = vec!["zeta", "alpha", "mid", "omega"];
    assert_eq!(profile.get_tags(), expected);
    let following: Vec<String> =
        profile.get_following().iter().map(|id| id.as_str().to_string()).collect();
    assert_eq!(following, expected);
    // A second read with no write in between gives the same list.
    assert_eq!(profile.get_tags(), profile.get_tags());
}

#[test]
fn records_differ_by_any_field() {
    let alice = account("alice");
    let mut profile = Profile::new(account("alice"));
    let base = mit();
    let mut with_college = mit();
    with_college.college = Some("Engineering".to_string());
    let mut with_empty_college = mit();
    with_empty_college.college = Some(String::new());
    let mut with_major = mit();
    with_major.major = Some("Engineering".to_string());
    let mut with_start = mit();
    with_start.started_at = Some(0);
    let mut with_end = mit();
    with_end.ended_at = Some(0);
    let mut other_school = mit();
    other_school.school = "mit".to_string();
    let all = vec![
        base,
        with_college,
        with_empty_college,
        with_major,
        with_start,
        with_end,
        other_school,
    ];
    for education in all.iter() {
        profile.add_education(&alice, education.clone()).unwrap();
    }
    for education in all.iter() {
        profile.add_education(&alice, education.clone()).unwrap();
    }
    assert_eq!(profile.get_educations(), all);
}

#[test]
fn end_may_lie_before_start() {
    let alice = account("alice");
    let mut profile = Profile::new(account("alice"));
    let mut odd = job("acme");
    odd.started_at = Some(100);
    odd.ended_at = Some(1);
    assert_eq!(profile.add_job(&alice, odd.clone()), Ok(()));
    assert_eq!(profile.get_jobs(), vec![odd]);
}

#[test]
fn nfts_and_poaps_are_two_collections() {
    let alice = account("alice");
    let mut profile = Profile::new(account("alice"));
    profile.add_nft(&alice, token("nft.near", "1")).unwrap();
    assert!(profile.get_poaps().is_empty());
    profile.add_poap(&alice, token("nft.near", "1")).unwrap();
    assert_eq!(profile.get_nfts(), vec![token("nft.near", "1")]);
    assert_eq!(profile.get_poaps(), vec![token("nft.near", "1")]);
}

#[test]
fn listing_is_a_copy() {
    let mut profile = Profile::new(account("alice"));
    profile.add_tag("x".to_string());
    let mut tags = profile.get_tags();
    tags.push("y".to_string());
    tags[0] = "z".to_string();
    assert_eq!(profile.get_tags(), vec!["x".to_string()]);
}

#[test]
fn restore_keeps_each_value_once() {
    let parts = ProfileParts {
        owner_id: account("alice"),
        avatar: Some("http://a.example/1.png".to_string()),
        nfts: vec![token("nft.near", "1"), token("nft.near", "2"), token("nft.near", "1")],
        tags: vec!["b".to_string(), "a".to_string(), "b".to_string(), "c".to_string()],
        educations: vec![mit(), mit()],
        jobs: vec![job("acme"), job("globex"), job("acme")],
        poaps: vec![],
        comments: vec![comment("bob", "hello"), comment("bob", "hello")],
        following: vec![account("carol"), account("dave"), account("carol")],
        follow_by: vec![account("erin"), account("erin"), account("frank")],
        last_update_at: Some(42),
    };
    let mut profile = Profile::restore(parts);
    assert_eq!(profile.get_owner_id(), account("alice"));
    assert_eq!(profile.get_avatar(), Some("http://a.example/1.png".to_string()));
    assert_eq!(profile.get_nfts(), vec![token("nft.near", "1"), token("nft.near", "2")]);
    assert_eq!(profile.get_tags(), vec!["b".to_string(), "a".to_string(), "c".to_string()]);
    assert_eq!(profile.get_educations(), vec![mit()]);
    assert_eq!(profile.get_jobs(), vec![job("acme"), job("globex")]);
    assert!(profile.get_poaps().is_empty());
    assert_eq!(profile.get_comments(), vec![comment("bob", "hello")]);
    assert_eq!(profile.get_following(), vec![account("carol"), account("dave")]);
    assert_eq!(profile.get_follow_by(), vec![account("erin"), account("frank")]);
    assert_eq!(profile.get_last_update_at(), Some(42));

    // The restored profile obeys the same rules as a new one.
    assert_eq!(
        profile.add_nft(&account("bob"), token("nft.near", "3")),
        Err(ProfileError::Unauthorized)
    );
    assert_eq!(profile.add_nft(&account("alice"), token("nft.near", "2")), Ok(()));
    assert_eq!(profile.add_nft(&account("alice"), token("nft.near", "3")), Ok(()));
    assert_eq!(
        profile.get_nfts(),
        vec![token("nft.near", "1"), token("nft.near", "2"), token("nft.near", "3")]
    );
}
