//! The path resolver: where the data root is, and where under it each store
//! and the session marker lie.

use vstd::prelude::*;
use crate::error::StoreError;
use crate::hash::{hash_email, user_key};

verus! {

/// A place below a root directory, segment by segment. Joining the segments
/// to the root with the platform's separator is left to the caller.
#[derive(Debug, PartialEq)]
pub struct StorePath {
    pub root: String,
    pub segments: Vec<String>,
}

/// A path as the contracts see it.
pub struct StorePathView {
    pub root: Seq<char>,
    pub segments: Seq<Seq<char>>,
}

impl DeepView for StorePath {
    type V = StorePathView;

    open spec fn deep_view(&self) -> StorePathView {
        StorePathView { root: self.root@, segments: self.segments.deep_view() }
    }
}

impl View for StorePath {
    type V = StorePathView;

    open spec fn view(&self) -> StorePathView {
        self.deep_view()
    }
}

impl StorePathView {
    /// The path one segment further down.
    pub open spec fn join(self, segment: Seq<char>) -> StorePathView {
        StorePathView { root: self.root, segments: self.segments.push(segment) }
    }
}

impl StorePath {
    /// The root directory itself.
    pub fn at_root(root: &String) -> (path: StorePath)
        ensures
            path@ == (StorePathView { root: root@, segments: Seq::empty() }),
    {
        let path = StorePath { root: root.clone(), segments: Vec::new() };
        assert(path.segments.deep_view() =~= Seq::empty());
        path
    }

    /// The path one segment further down.
    pub fn join(&self, segment: &str) -> (path: StorePath)
        ensures
            path@ == self@.join(segment@),
    {
        let mut path = self.clone();
        path.segments.push(String::from_str(segment));
        assert(path.segments.deep_view() =~= self.segments.deep_view().push(segment@));
        path
    }
}

impl Clone for StorePath {
    fn clone(&self) -> (copy: StorePath)
        ensures
            copy@ == self@,
    {
        let mut segments: Vec<String> = Vec::new();
        let mut i: usize = 0;
        while i < self.segments.len()
            invariant
                0 <= i <= self.segments.len(),
                segments@.len() == i,
                forall|j: int| 0 <= j < i ==> (#[trigger] segments@[j])@ == self.segments@[j]@,
            decreases self.segments.len() - i,
        {
            segments.push(self.segments[i].clone());
            i += 1;
        }
        let copy = StorePath { root: self.root.clone(), segments };
        assert(copy.segments.deep_view() =~= self.segments.deep_view());
        copy
    }
}

/// The global store under a data root.
pub open spec fn global_db_location(root: Seq<char>) -> StorePathView {
    StorePathView { root, segments: seq!["app_data.db"@] }
}

/// The session marker under a data root.
pub open spec fn session_location(root: Seq<char>) -> StorePathView {
    StorePathView { root, segments: seq![".session"@] }
}

/// The directory of the user with this key.
pub open spec fn user_dir_location(base: StorePathView, key: Seq<char>) -> StorePathView {
    base.join("users"@).join(key)
}

/// The store of the user with this key.
pub open spec fn user_db_location(base: StorePathView, key: Seq<char>) -> StorePathView {
    user_dir_location(base, key).join("user_data.db"@)
}

/// The data root of this run: unset at first, then set once and for all.
#[derive(Debug, Clone, PartialEq)]
pub struct AppDataPath {
    pub root: Option<String>,
}

impl AppDataPath {
    /// A slot in which no data root is set yet.
    pub fn new() -> (slot: AppDataPath)
        ensures
            slot.root is None,
    {
        AppDataPath { root: None }
    }
}

/// Sets the data root of this run to what the platform resolved.
///
/// Fails with `PathUnavailable`, and sets nothing, where the platform
/// resolved no directory; fails with `PathAlreadyInitialized`, and keeps the
/// root that is set, where one is set already.
pub fn init_app_data_path(slot: &mut AppDataPath, resolved: Option<String>) -> (outcome: Result<
    (),
    StoreError,
>)
    ensures
        resolved is None ==> outcome == Err::<(), StoreError>(StoreError::PathUnavailable)
            && *final(slot) == *old(slot),
        resolved is Some && old(slot).root is Some ==> outcome == Err::<(), StoreError>(
            StoreError::PathAlreadyInitialized,
        ) && *final(slot) == *old(slot),
        resolved is Some && old(slot).root is None ==> outcome is Ok && final(slot).root
            == resolved,
{
    match resolved {
        None => Err(StoreError::PathUnavailable),
        Some(root) => {
            if slot.root.is_some() {
                Err(StoreError::PathAlreadyInitialized)
            } else {
                slot.root = Some(root);
                Ok(())
            }
        },
    }
}

/// The data root, where it is set; `PathUnavailable` where it is not.
pub fn get_app_data_path(slot: &AppDataPath) -> (outcome: Result<StorePath, StoreError>)
    ensures
        match outcome {
            Ok(path) => slot.root is Some && path@ == (StorePathView {
                root: slot.root->0@,
                segments: Seq::empty(),
            }),
            Err(error) => slot.root is None && error == StoreError::PathUnavailable,
        },
{
    match &slot.root {
        Some(root) => Ok(StorePath::at_root(root)),
        None => Err(StoreError::PathUnavailable),
    }
}

/// The place of the global store; `PathUnavailable` where no data root is
/// set. The session is not looked at.
pub fn global_db_path(slot: &AppDataPath) -> (outcome: Result<StorePath, StoreError>)
    ensures
        match outcome {
            Ok(path) => slot.root is Some && path@ == global_db_location(slot.root->0@),
            Err(error) => slot.root is None && error == StoreError::PathUnavailable,
        },
{
    match get_app_data_path(slot) {
        Ok(base) => {
            let path = base.join("app_data.db");
            assert(path@.segments =~= seq!["app_data.db"@]);
            Ok(path)
        },
        Err(error) => Err(error),
    }
}

/// The place of the session marker; `PathUnavailable` where no data root is
/// set.
pub fn session_path(slot: &AppDataPath) -> (outcome: Result<StorePath, StoreError>)
    ensures
        match outcome {
            Ok(path) => slot.root is Some && path@ == session_location(slot.root->0@),
            Err(error) => slot.root is None && error == StoreError::PathUnavailable,
        },
{
    match get_app_data_path(slot) {
        Ok(base) => {
            let path = base.join(".session");
            assert(path@.segments =~= seq![".session"@]);
            Ok(path)
        },
        Err(error) => Err(error),
    }
}

/// The directory of the user with this key, below `base`.
pub fn user_dir_path(base: &StorePath, key: &str) -> (path: StorePath)
    ensures
        path@ == user_dir_location(base@, key@),
{
    base.join("users").join(key)
}

/// The store of the user with this key, below `base`.
pub fn user_db_path(base: &StorePath, key: &str) -> (path: StorePath)
    ensures
        path@ == user_db_location(base@, key@),
{
    user_dir_path(base, key).join("user_data.db")
}

/// The store of the user with this email, below `base`: the key is derived
/// from the email.
pub fn get_user_db_path(base_dir: &StorePath, email: &str) -> (path: StorePath)
    ensures
        path@ == user_db_location(base_dir@, user_key(email@)),
{
    let key = hash_email(email);
    user_db_path(base_dir, key.as_str())
}

/// Two users' stores below one base are the same place exactly when their
/// keys are the same.
pub proof fn lemma_user_stores_apart(base: StorePathView, key_a: Seq<char>, key_b: Seq<char>)
    ensures
        user_db_location(base, key_a) == user_db_location(base, key_b) <==> key_a == key_b,
{
    if user_db_location(base, key_a) == user_db_location(base, key_b) {
        let a = user_db_location(base, key_a).segments;
        let b = user_db_location(base, key_b).segments;
        let n = base.segments.len() as int;
        assert(a[n + 1] == key_a);
        assert(b[n + 1] == key_b);
    }
}

} // verus!
