//! What is known of the clusters: their names, their namespaces, where
//! their load balancers are listed and where their credentials are kept.

use vstd::prelude::*;
use vstd::string::*;
use crate::runner::{plain_cmd, strs, texts, Cmd};
use crate::text::{chars_of, starts_with};

verus! {

/// The clusters that can be chosen, in the order in which they are offered.
pub fn valid_clusters() -> (ids: Vec<&'static str>)
    ensures
        strs(ids@) == seq![
            "development0"@,
            "development1"@,
            "development2"@,
            "production0"@,
            "production1"@,
            "production2"@,
        ],
{
    let ids = vec![
        "development0",
        "development1",
        "development2",
        "production0",
        "production1",
        "production2",
    ];
    assert(strs(ids@) == seq![
        "development0"@,
        "development1"@,
        "development2"@,
        "production0"@,
        "production1"@,
        "production2"@,
    ]);
    ids
}

/// The namespace that the workloads of a cluster live in: the kind of
/// cluster that its name begins with, where it begins with one.
pub open spec fn namespace_for(cluster_id: Seq<char>) -> Option<Seq<char>> {
    if "development"@.is_prefix_of(cluster_id) {
        Some("development"@)
    } else if "production"@.is_prefix_of(cluster_id) {
        Some("production"@)
    } else {
        None
    }
}

/// The namespace of the cluster `cluster_id`, if its name says of which
/// kind it is.
pub fn namespace_of(cluster_id: &str) -> (ns: Option<&'static str>)
    ensures
        ns is Some <==> namespace_for(cluster_id@) is Some,
        ns matches Some(name) ==> namespace_for(cluster_id@) == Some(name@),
{
    if starts_with(cluster_id, "development") {
        Some("development")
    } else if starts_with(cluster_id, "production") {
        Some("production")
    } else {
        None
    }
}

/// The namespace of the cluster `cluster_id`, whose name must say of
/// which kind it is.
pub fn default_namespace(cluster_id: &str) -> (ns: &'static str)
    requires
        namespace_for(cluster_id@) is Some,
    ensures
        namespace_for(cluster_id@) == Some(ns@),
{
    if starts_with(cluster_id, "development") {
        "development"
    } else {
        "production"
    }
}

/// The first part of the address under which a cluster's load balancers are listed.
pub const ELBS_URL: &'static str =
    "https://console.aws.amazon.com/ec2/home?region=us-east-1#LoadBalancers:tag:kubernetes.io/cluster/";

/// The address that lists the load balancers of the cluster `cluster_id`.
pub fn cluster_elbs_url(cluster_id: &str) -> (url: String)
    ensures
        url@ == ELBS_URL@ + cluster_id@ + "=*"@,
{
    String::from_str(ELBS_URL).concat(cluster_id).concat("=*")
}

/// The path `rel` as seen from the directory `base`: `rel` itself where
/// it starts at the root, else `rel` behind `base`, with one `/` between
/// them unless `base` is empty or ends in one.
pub open spec fn joined(base: Seq<char>, rel: Seq<char>) -> Seq<char> {
    if rel.len() > 0 && rel[0] == '/' {
        rel
    } else if base.len() == 0 || base.last() == '/' {
        base + rel
    } else {
        base + seq!['/'] + rel
    }
}

/// The path `rel` as seen from the directory `base`.
pub fn join_path(base: &str, rel: &str) -> (path: String)
    ensures
        path@ == joined(base@, rel@),
{
    let tail = chars_of(rel);
    if tail.len() > 0 && tail[0] == '/' {
        return String::from_str(rel);
    }
    let head = chars_of(base);
    if head.len() == 0 || head[head.len() - 1] == '/' {
        String::from_str(base).concat(rel)
    } else {
        proof {
            reveal_strlit("/");
            assert("/"@ == seq!['/']);
        }
        String::from_str(base).concat("/").concat(rel)
    }
}

/// The directory in which the assets of the cluster `cluster_id` are kept.
pub fn cache_dir(assets_cache_path: &str, cluster_id: &str) -> (dir: String)
    ensures
        dir@ == joined(assets_cache_path@, cluster_id@),
{
    join_path(assets_cache_path, cluster_id)
}

/// The file in which the credentials of the cluster `cluster_id` are kept.
pub fn kubeconfig_path(assets_cache_path: &str, cluster_id: &str) -> (file: String)
    ensures
        file@ == joined(joined(assets_cache_path@, cluster_id@), "kubeconfig"@),
{
    let dir = join_path(assets_cache_path, cluster_id);
    join_path(dir.as_str(), "kubeconfig")
}

/// A path between double quotes, as it is shown to the operator.
pub open spec fn quoted(path: Seq<char>) -> Seq<char> {
    seq!['"'] + path + seq!['"']
}

/// The line that tells the operator where a command will run.
pub fn path_line(path: &str) -> (line: String)
    ensures
        line@ == "Path: "@ + quoted(path@),
{
    proof {
        reveal_strlit("\"");
        assert("\""@ == seq!['"']);
    }
    let line = String::from_str("Path: ").concat("\"").concat(path).concat("\"");
    assert(line@ == "Path: "@ + quoted(path@));
    line
}

/// The command that lists the names of all buckets, separated by white space.
pub fn list_buckets(profile: &str) -> (c: Cmd)
    ensures
        c@ == plain_cmd(
            seq![
                "aws"@,
                "s3api"@,
                "list-buckets"@,
                "--query"@,
                "Buckets[].Name"@,
                "--output"@,
                "text"@,
            ],
        ).with_env("AWS_PROFILE"@, profile@),
{
    let argv = vec!["aws", "s3api", "list-buckets", "--query", "Buckets[].Name", "--output", "text"];
    assert(strs(argv@) == seq![
        "aws"@,
        "s3api"@,
        "list-buckets"@,
        "--query"@,
        "Buckets[].Name"@,
        "--output"@,
        "text"@,
    ]);
    let mut c = Cmd::new(argv);
    c.env("AWS_PROFILE", profile);
    c
}

/// The command that fetches a cluster's credentials from `bucket` into the file `output`.
pub fn download_kubeconfig(bucket: &str, profile: &str, output: &str) -> (c: Cmd)
    ensures
        c@ == plain_cmd(
            seq![
                "aws"@,
                "s3api"@,
                "get-object"@,
                "--bucket"@,
                bucket@,
                "--key"@,
                "kubeconfig"@,
                output@,
            ],
        ).with_env("AWS_PROFILE"@, profile@),
{
    let argv = vec!["aws", "s3api", "get-object", "--bucket", bucket, "--key", "kubeconfig", output];
    assert(strs(argv@) == seq![
        "aws"@,
        "s3api"@,
        "get-object"@,
        "--bucket"@,
        bucket@,
        "--key"@,
        "kubeconfig"@,
        output@,
    ]);
    let mut c = Cmd::new(argv);
    c.env("AWS_PROFILE", profile);
    c
}

/// The pieces that white space parts `text` into, in order.
pub uninterp spec fn whitespace_fields(text: Seq<char>) -> Seq<Seq<char>>;

/// `str::split_whitespace`: the pieces of `text` between runs of Unicode
/// white space, in order, each as a string of its own. What the pieces
/// are is left to the standard library; the contract only gives them
/// their name.
#[verifier::external_body]
fn fields(text: &str) -> (pieces: Vec<String>)
    ensures
        texts(pieces@) == whitespace_fields(text@),
{
    text.split_whitespace().map(|piece| piece.to_string()).collect()
}

/// What the name of the bucket with a cluster's assets begins with.
pub open spec fn bucket_prefix(cluster_id: Seq<char>) -> Seq<char> {
    "a"@ + cluster_id
}

/// Whether `at` is the first position of `names` whose name begins with `prefix`.
pub open spec fn first_match(names: Seq<Seq<char>>, prefix: Seq<char>, at: int) -> bool {
    &&& 0 <= at < names.len()
    &&& prefix.is_prefix_of(names[at])
    &&& forall|k: int| 0 <= k < at ==> !prefix.is_prefix_of(#[trigger] names[k])
}

/// Why no bucket was named.
#[derive(Clone, Copy, Debug, PartialEq, Eq)]
pub enum BucketError {
    /// The listing itself failed.
    ListingFailed,
    /// No bucket of the listing belongs to the cluster.
    NotFound,
}

/// Picks, from the names of all buckets, the first that belongs to the
/// cluster `cluster_id`.
pub fn pick_bucket(names: &Vec<String>, cluster_id: &str) -> (bucket: Option<String>)
    ensures
        bucket matches Some(name) ==> exists|at: int|
            first_match(texts(names@), bucket_prefix(cluster_id@), at) && texts(names@)[at]
                == name@,
        bucket is None ==> forall|k: int|
            0 <= k < names.len() ==> !bucket_prefix(cluster_id@).is_prefix_of(
                #[trigger] texts(names@)[k],
            ),
{
    let matcher = String::from_str("a").concat(cluster_id);
    let mut i: usize = 0;
    while i < names.len()
        invariant
            i <= names.len(),
            matcher@ == bucket_prefix(cluster_id@),
            forall|k: int|
                0 <= k < i ==> !bucket_prefix(cluster_id@).is_prefix_of(#[trigger] texts(names@)[k]),
        decreases names.len() - i,
    {
        if starts_with(names[i].as_str(), matcher.as_str()) {
            assert(first_match(texts(names@), bucket_prefix(cluster_id@), i as int));
            return Some(names[i].clone());
        }
        i = i + 1;
    }
    None
}

/// Names the bucket with the assets of the cluster `cluster_id`, given
/// whether the listing of all buckets succeeded and what it printed.
pub fn assets_bucket_name(cluster_id: &str, listed: bool, listing: &str) -> (bucket: Result<
    String,
    BucketError,
>)
    ensures
        bucket matches Err(e) ==> e == if listed {
            BucketError::NotFound
        } else {
            BucketError::ListingFailed
        },
        bucket is Err <==> !listed || forall|k: int|
            0 <= k < whitespace_fields(listing@).len() ==> !bucket_prefix(cluster_id@).is_prefix_of(
                #[trigger] whitespace_fields(listing@)[k],
            ),
        bucket matches Ok(name) ==> exists|at: int|
            first_match(whitespace_fields(listing@), bucket_prefix(cluster_id@), at)
                && whitespace_fields(listing@)[at] == name@,
{
    if !listed {
        return Err(BucketError::ListingFailed);
    }
    let names = fields(listing);
    match pick_bucket(&names, cluster_id) {
        Some(name) => Ok(name),
        None => Err(BucketError::NotFound),
    }
}

} // verus!
