//! Uploads, and the search for files by their hashes.

use crate::request::{
    borrowed, owned_text_of, receive, receive_response, received, received_response, Body,
    BodyView, Payload, Request, RequestView,
};
use crate::text::{decimal, decimal_i32, join, same_text};
use crate::{
    outcome, Failure, Fossology, FossologyError, FossologyResponse, FossologyView, InfoWithNumber,
};
use vstd::prelude::*;
use vstd::string::StringExecFns;

verus! {

/// An upload that the server has just accepted.
#[derive(Debug)]
pub struct NewUpload {
    pub upload_id: i32,
}

/// An upload as the server describes it.
#[derive(Debug)]
pub struct Upload {
    pub folder_id: i32,
    pub folder_name: String,
    pub id: i32,
    pub description: String,
    pub upload_name: String,
    pub upload_date: String,
    pub assignee: Option<i32>,
    pub hash: Hash,
}

/// What the server knows of the files with one hash.
#[derive(Debug)]
pub struct FilesearchResponse {
    pub hash: Hash,
    pub findings: Option<Findings>,
    pub uploads: Vec<i32>,
    pub message: Option<String>,
}

/// The licenses and copyrights found in a file.
#[derive(Debug)]
pub struct Findings {
    pub scanner: Vec<String>,
    pub conclusion: Vec<String>,
    pub copyright: Vec<String>,
}

/// The hashes by which a file is known, as far as they are known.
#[derive(Debug)]
pub struct Hash {
    pub sha1: Option<String>,
    pub md5: Option<String>,
    pub sha256: Option<String>,
    pub size: Option<i32>,
}

/// The hashes of a file as the contracts speak of them.
pub struct HashView {
    pub sha1: Option<Seq<char>>,
    pub md5: Option<Seq<char>>,
    pub sha256: Option<Seq<char>>,
    pub size: Option<i32>,
}

/// What an optional text holds.
pub open spec fn text_of(s: Option<String>) -> Option<Seq<char>> {
    match s {
        Some(s) => Some(s@),
        None => None,
    }
}

impl View for Hash {
    type V = HashView;

    open spec fn view(&self) -> HashView {
        HashView {
            sha1: text_of(self.sha1),
            md5: text_of(self.md5),
            sha256: text_of(self.sha256),
            size: self.size,
        }
    }
}

impl Default for Hash {
    /// No hash is known.
    fn default() -> (r: Self)
        ensures
            r@ == (HashView { sha1: None, md5: None, sha256: None, size: None }),
    {
        Hash { sha1: None, md5: None, sha256: None, size: None }
    }
}

impl Hash {
    /// The hashes of a file of which only the SHA-1 is known.
    pub fn from_sha1(sha1: &str) -> (r: Self)
        ensures
            r@ == (HashView { sha1: Some(sha1@), md5: None, sha256: None, size: None }),
    {
        Hash { sha1: Some(String::from_str(sha1)), md5: None, sha256: None, size: None }
    }

    /// The hashes of a file of which only the SHA-256 is known.
    pub fn from_sha256(sha256: &str) -> (r: Self)
        ensures
            r@ == (HashView { sha1: None, md5: None, sha256: Some(sha256@), size: None }),
    {
        Hash { sha1: None, md5: None, sha256: Some(String::from_str(sha256)), size: None }
    }

    /// The hashes of a file of which only the MD5 is known.
    pub fn from_md5(md5: &str) -> (r: Self)
        ensures
            r@ == (HashView { sha1: None, md5: Some(md5@), sha256: None, size: None }),
    {
        Hash { sha1: None, md5: Some(String::from_str(md5)), sha256: None, size: None }
    }
}

impl FossologyView {
    /// What is asked to put the file at `path` into the folder `folder_id`.
    pub open spec fn upload_request(self, folder_id: int, path: Seq<char>) -> RequestView {
        self.post_with_token("uploads"@).header("folderId"@, decimal(folder_id)).body(
            BodyView::File { field: "fileInput"@, path },
        )
    }

    /// What is asked to have the upload `upload_id` described.
    pub open spec fn upload_by_id_request(self, upload_id: int) -> RequestView {
        self.get_with_token("uploads/"@ + decimal(upload_id))
    }

    /// What is asked to find the files with the hashes `hashes`.
    pub open spec fn filesearch_request(
        self,
        hashes: Seq<Hash>,
        group_name: Option<Seq<char>>,
    ) -> RequestView {
        self.post_with_token("filesearch"@).body(BodyView::Hashes(hashes)).header_if(
            "groupName"@,
            group_name,
        )
    }
}

/// What to ask to put the file at `path_to_file` into the folder `folder_id`.
/// The file is read when the request is sent; where it cannot be read,
/// nothing is sent.
pub fn new_upload_from_file<'a>(fossology: &Fossology, folder_id: i32, path_to_file: &str) -> (r:
    Request<'a>)
    ensures
        r@ == fossology@.upload_request(folder_id as int, path_to_file@),
{
    let folder = decimal_i32(folder_id);
    fossology.init_post_with_token("uploads").header("folderId", folder.as_str()).body(
        Body::File { field: String::from_str("fileInput"), path: String::from_str(path_to_file) },
    )
}

/// The upload that the server made, as the contracts speak of it.
pub open spec fn new_upload(reply: Result<Payload<InfoWithNumber>, FossologyError>) -> Result<
    NewUpload,
    Failure,
> {
    match received_response(reply) {
        Ok(info) => Ok(NewUpload { upload_id: info.message }),
        Err(failure) => Err(failure),
    }
}

/// The upload that the server made: its id is the number in the message.
pub fn new_upload_reply(reply: Result<Payload<InfoWithNumber>, FossologyError>) -> (r: Result<
    NewUpload,
    FossologyError,
>)
    ensures
        outcome(r) == new_upload(reply),
{
    match receive_response(reply) {
        Ok(info) => Ok(NewUpload { upload_id: info.message }),
        Err(e) => Err(e),
    }
}

/// What to ask to have the upload `upload_id` described.
pub fn get_upload_by_id<'a>(fossology: &Fossology, upload_id: i32) -> (r: Request<'a>)
    ensures
        r@ == fossology@.upload_by_id_request(upload_id as int),
{
    let path = join("uploads/", decimal_i32(upload_id).as_str());
    fossology.init_get_with_token(path.as_str())
}

/// The upload in what came back, as the contracts speak of it: `None` where
/// the server says that there is no such upload, the failure with the
/// server's report where it reports any other error.
pub open spec fn upload_found(reply: Result<Payload<Upload>, FossologyError>) -> Result<
    Option<Upload>,
    Failure,
> {
    match received(reply) {
        Ok(FossologyResponse::Response(upload)) => Ok(Some(upload)),
        Ok(FossologyResponse::ApiError(info)) => if info.message@ == "Upload does not exist"@ {
            Ok(None)
        } else {
            Err(info.failure())
        },
        Err(failure) => Err(failure),
    }
}

/// The upload in what came back; `None` where the server says that there is
/// no such upload.
pub fn upload_reply(reply: Result<Payload<Upload>, FossologyError>) -> (r: Result<
    Option<Upload>,
    FossologyError,
>)
    ensures
        outcome(r) == upload_found(reply),
{
    match receive(reply) {
        Ok(FossologyResponse::Response(upload)) => Ok(Some(upload)),
        Ok(FossologyResponse::ApiError(info)) => {
            if same_text(info.message.as_str(), "Upload does not exist") {
                Ok(None)
            } else {
                Err(FossologyError::ApiError(info))
            }
        },
        Err(e) => Err(e),
    }
}

/// What to ask to find the files with the hashes `hashes`.
pub fn filesearch<'a>(fossology: &Fossology, hashes: &'a [Hash], group_name: Option<String>) -> (r:
    Request<'a>)
    ensures
        r@ == fossology@.filesearch_request(hashes@, owned_text_of(group_name)),
{
    fossology.init_post_with_token("filesearch").body(Body::Hashes(hashes)).header_if(
        "groupName",
        borrowed(&group_name),
    )
}

/// Whether `entry` says of its hash that no file has it.
pub open spec fn is_miss(entry: FilesearchResponse) -> bool {
    entry.message matches Some(message) && message@ == "Not found"@
}

/// Tells the entries that name a file.
pub open spec fn is_hit() -> spec_fn(FilesearchResponse) -> bool {
    |entry: FilesearchResponse| !is_miss(entry)
}

/// The entries of `entries` that name a file, in their order.
pub open spec fn hits(entries: Seq<FilesearchResponse>) -> Seq<FilesearchResponse> {
    entries.filter(is_hit())
}

/// What the search found, as the contracts speak of it.
pub open spec fn search_found(
    reply: Result<Payload<Vec<FilesearchResponse>>, FossologyError>,
) -> Result<Seq<FilesearchResponse>, Failure> {
    match received_response(reply) {
        Ok(entries) => Ok(hits(entries@)),
        Err(failure) => Err(failure),
    }
}

/// What became of a search, as the contracts speak of it.
pub open spec fn searched(r: Result<Vec<FilesearchResponse>, FossologyError>) -> Result<
    Seq<FilesearchResponse>,
    Failure,
> {
    match r {
        Ok(entries) => Ok(entries@),
        Err(e) => Err(e@),
    }
}

/// The entries of `entries` that name a file, in their order.
pub fn keep_hits(entries: Vec<FilesearchResponse>) -> (r: Vec<FilesearchResponse>)
    ensures
        r@ == hits(entries@),
{
    let ghost all = entries@;
    let mut kept: Vec<FilesearchResponse> = Vec::new();
    for entry in it: entries.into_iter()
        invariant
            it.seq() == all,
            kept@ == hits(all.take(it.index() as int)),
    {
        proof {
            let n = it.index() as int;
            assert(all.take(n + 1).drop_last() =~= all.take(n));
            assert(all.take(n + 1).last() == entry);
            reveal(Seq::filter);
        }
        let miss = match &entry.message {
            Some(message) => same_text(message.as_str(), "Not found"),
            None => false,
        };
        if !miss {
            kept.push(entry);
        }
    }
    proof {
        assert(all.take(all.len() as int) =~= all);
    }
    kept
}

/// What the search found: the entries that came back, without those that
/// say of their hash that no file has it.
pub fn filesearch_reply(reply: Result<Payload<Vec<FilesearchResponse>>, FossologyError>) -> (r:
    Result<Vec<FilesearchResponse>, FossologyError>)
    ensures
        searched(r) == search_found(reply),
{
    match receive_response(reply) {
        Ok(entries) => Ok(keep_hits(entries)),
        Err(e) => Err(e),
    }
}

/// No entry that says "Not found" is among the hits; every other entry is,
/// and nothing else: the hits are entries of the list, as many as do not
/// say "Not found".
pub proof fn law_hits(entries: Seq<FilesearchResponse>)
    ensures
        forall|i: int| 0 <= i < hits(entries).len() ==> !is_miss(#[trigger] hits(entries)[i]),
        forall|i: int|
            0 <= i < entries.len() && !is_miss(#[trigger] entries[i]) ==> hits(entries).contains(
                entries[i],
            ),
        forall|i: int|
            0 <= i < hits(entries).len() ==> entries.contains(#[trigger] hits(entries)[i]),
        hits(entries).len() <= entries.len(),
{
    assert forall|i: int| 0 <= i < hits(entries).len() implies !is_miss(
        #[trigger] hits(entries)[i],
    ) by {
        entries.lemma_filter_pred(is_hit(), i);
    }
    assert forall|i: int| 0 <= i < entries.len() && !is_miss(#[trigger] entries[i]) implies hits(
        entries,
    ).contains(entries[i]) by {
        entries.lemma_filter_contains(is_hit(), i);
    }
    assert forall|i: int| 0 <= i < hits(entries).len() implies entries.contains(
        #[trigger] hits(entries)[i],
    ) by {
        let hit = hits(entries)[i];
        assert(hits(entries).contains(hit));
        entries.lemma_filter_contains_rev(is_hit(), hit);
    }
    entries.lemma_filter_len(is_hit());
}

/// Of two entries of which the second says "Not found" and the first does
/// not, the first alone is a hit.
pub proof fn law_one_hit_of_two(hit: FilesearchResponse, miss: FilesearchResponse)
    requires
        !is_miss(hit),
        is_miss(miss),
    ensures
        hits(seq![hit, miss]) == seq![hit],
        hits(seq![miss, hit]) == seq![hit],
{
    reveal_with_fuel(Seq::filter, 3);
    let first = seq![hit, miss];
    assert(first.drop_last() =~= seq![hit]);
    assert(seq![hit].drop_last() =~= Seq::<FilesearchResponse>::empty());
    assert(hits(first) =~= seq![hit]);
    let second = seq![miss, hit];
    assert(second.drop_last() =~= seq![miss]);
    assert(seq![miss].drop_last() =~= Seq::<FilesearchResponse>::empty());
    assert(hits(second) =~= seq![hit]);
}

} // verus!
