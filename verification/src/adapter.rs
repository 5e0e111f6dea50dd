//! Vendor adapters: what differs between the endpoints that the client talks
//! to, kept as a table from a URL pattern to the adapter's profile.

use crate::json::{path_view, paths_view, PathStep, Step};
use crate::text::{contains, str_contains};
use vstd::prelude::*;

verus! {

/// How one vendor's endpoint is addressed and read.
#[derive(Debug, PartialEq, Eq)]
pub struct AdapterProfile {
    /// The profile applies to every URL in which this text occurs.
    pub pattern: String,
    /// Headers sent besides authorization and content type.
    pub extra_headers: Vec<(String, String)>,
    /// Where the text of a streamed event is found, in order of preference.
    pub stream_paths: Vec<Vec<PathStep>>,
    /// Where the text of a single complete response is found, in order of preference.
    pub single_paths: Vec<Vec<PathStep>>,
    /// Where the vendor reports an error.
    pub error_path: Vec<PathStep>,
}

/// The mathematical value of an [`AdapterProfile`].
pub struct Profile {
    pub pattern: Seq<char>,
    pub extra_headers: Seq<(Seq<char>, Seq<char>)>,
    pub stream_paths: Seq<Seq<Step>>,
    pub single_paths: Seq<Seq<Step>>,
    pub error_path: Seq<Step>,
}

/// Pairs of strings as pairs of character sequences.
pub open spec fn pairs_view(pairs: Seq<(String, String)>) -> Seq<(Seq<char>, Seq<char>)> {
    Seq::new(pairs.len(), |i: int| (pairs[i].0@, pairs[i].1@))
}

impl View for AdapterProfile {
    type V = Profile;

    open spec fn view(&self) -> Profile {
        Profile {
            pattern: self.pattern@,
            extra_headers: pairs_view(self.extra_headers@),
            stream_paths: paths_view(self.stream_paths@),
            single_paths: paths_view(self.single_paths@),
            error_path: path_view(self.error_path@),
        }
    }
}

/// The profiles of a table as mathematical values.
pub open spec fn table_view(table: Seq<AdapterProfile>) -> Seq<Profile> {
    Seq::new(table.len(), |i: int| table[i]@)
}

/// `choices[0].delta.content`: the text of one streamed event of an
/// OpenAI-compatible endpoint.
pub open spec fn delta_content_path() -> Seq<Step> {
    seq![Step::Key("choices"@), Step::Index(0), Step::Key("delta"@), Step::Key("content"@)]
}

/// `choices[0].message.content`: the text of a complete message of an
/// OpenAI-compatible endpoint.
pub open spec fn message_content_path() -> Seq<Step> {
    seq![Step::Key("choices"@), Step::Index(0), Step::Key("message"@), Step::Key("content"@)]
}

/// `output.choices[0].message.content`: the text of a DashScope message.
pub open spec fn output_message_path() -> Seq<Step> {
    seq![
        Step::Key("output"@),
        Step::Key("choices"@),
        Step::Index(0),
        Step::Key("message"@),
        Step::Key("content"@),
    ]
}

/// `output.text`: the text of a DashScope completion.
pub open spec fn output_text_path() -> Seq<Step> {
    seq![Step::Key("output"@), Step::Key("text"@)]
}

/// `error_msg`: where an endpoint reports an error.
pub open spec fn error_message_path() -> Seq<Step> {
    seq![Step::Key("error_msg"@)]
}

/// The profile of DashScope-compatible endpoints.
pub open spec fn dashscope_profile() -> Profile {
    Profile {
        pattern: "dashscope.aliyuncs.com"@,
        extra_headers: seq![("X-DashScope-SSE"@, "enable"@)],
        stream_paths: seq![output_message_path(), output_text_path()],
        single_paths: seq![output_message_path(), output_text_path()],
        error_path: error_message_path(),
    }
}

/// The profile of the `free.v36.cm` relay.
pub open spec fn v36_profile() -> Profile {
    Profile {
        pattern: "free.v36.cm"@,
        extra_headers: seq![("x-foo"@, "true"@)],
        stream_paths: seq![delta_content_path(), message_content_path()],
        single_paths: seq![message_content_path()],
        error_path: error_message_path(),
    }
}

/// The profile of any other, OpenAI-compatible endpoint. Its pattern is empty
/// and so occurs in every URL.
pub open spec fn openai_profile() -> Profile {
    Profile {
        pattern: Seq::empty(),
        extra_headers: Seq::empty(),
        stream_paths: seq![delta_content_path(), message_content_path()],
        single_paths: seq![message_content_path()],
        error_path: error_message_path(),
    }
}

/// The table of known vendors, most specific first.
pub open spec fn known_profiles() -> Seq<Profile> {
    seq![dashscope_profile(), v36_profile(), openai_profile()]
}

/// The first profile of `table` whose pattern occurs in `url`.
pub open spec fn select(table: Seq<Profile>, url: Seq<char>) -> Option<Profile>
    decreases table.len(),
{
    if table.len() == 0 {
        None
    } else if contains(url, table[0].pattern) {
        Some(table[0])
    } else {
        select(table.drop_first(), url)
    }
}

/// The profile that applies to `url`.
pub open spec fn profile_of(url: Seq<char>) -> Profile {
    if contains(url, "dashscope.aliyuncs.com"@) {
        dashscope_profile()
    } else if contains(url, "free.v36.cm"@) {
        v36_profile()
    } else {
        openai_profile()
    }
}

/// Looking `url` up in the table of known vendors gives the profile that
/// applies to it: the table always has an answer.
pub proof fn lemma_select_known(url: Seq<char>)
    ensures
        select(known_profiles(), url) == Some(profile_of(url)),
{
    let t = known_profiles();
    let t1 = t.drop_first();
    let t2 = t1.drop_first();
    assert(t[0] == dashscope_profile());
    assert(t1[0] == v36_profile());
    assert(t2[0] == openai_profile());
    assert(url.subrange(0, 0) =~= Seq::<char>::empty());
    assert(crate::text::occurs_at(url, Seq::<char>::empty(), 0));
    reveal_with_fuel(select, 4);
}

/// Which paths the decoder reads depends on the URL alone: for a URL that
/// names `dashscope.aliyuncs.com` it reads `output.choices[0].message.content`
/// and then `output.text`; for every other URL it reads
/// `choices[0].delta.content` and then `choices[0].message.content`.
pub proof fn lemma_paths_by_url(url: Seq<char>)
    ensures
        contains(url, "dashscope.aliyuncs.com"@) ==> profile_of(url).stream_paths == seq![
            output_message_path(),
            output_text_path(),
        ],
        !contains(url, "dashscope.aliyuncs.com"@) ==> profile_of(url).stream_paths == seq![
            delta_content_path(),
            message_content_path(),
        ],
        !contains(url, "dashscope.aliyuncs.com"@) ==> profile_of(url).single_paths == seq![
            message_content_path(),
        ],
{
}

/// A step into the member with the key `s`.
pub fn key(s: &str) -> (r: PathStep)
    ensures
        r@ == Step::Key(s@),
{
    PathStep::Key(s.to_string())
}

fn delta_content() -> (r: Vec<PathStep>)
    ensures
        path_view(r@) == delta_content_path(),
{
    let r = vec![key("choices"), PathStep::Index(0), key("delta"), key("content")];
    assert(path_view(r@) =~= delta_content_path());
    r
}

fn message_content() -> (r: Vec<PathStep>)
    ensures
        path_view(r@) == message_content_path(),
{
    let r = vec![key("choices"), PathStep::Index(0), key("message"), key("content")];
    assert(path_view(r@) =~= message_content_path());
    r
}

fn output_message() -> (r: Vec<PathStep>)
    ensures
        path_view(r@) == output_message_path(),
{
    let r = vec![key("output"), key("choices"), PathStep::Index(0), key("message"), key("content")];
    assert(path_view(r@) =~= output_message_path());
    r
}

fn output_text() -> (r: Vec<PathStep>)
    ensures
        path_view(r@) == output_text_path(),
{
    let r = vec![key("output"), key("text")];
    assert(path_view(r@) =~= output_text_path());
    r
}

fn error_message() -> (r: Vec<PathStep>)
    ensures
        path_view(r@) == error_message_path(),
{
    let r = vec![key("error_msg")];
    assert(path_view(r@) =~= error_message_path());
    r
}

impl AdapterProfile {
    /// The profile of DashScope-compatible endpoints.
    pub fn dashscope() -> (r: AdapterProfile)
        ensures
            r@ == dashscope_profile(),
    {
        let r = AdapterProfile {
            pattern: "dashscope.aliyuncs.com".to_string(),
            extra_headers: vec![("X-DashScope-SSE".to_string(), "enable".to_string())],
            stream_paths: vec![output_message(), output_text()],
            single_paths: vec![output_message(), output_text()],
            error_path: error_message(),
        };
        assert(r@.extra_headers =~= dashscope_profile().extra_headers);
        assert(r@.stream_paths =~= dashscope_profile().stream_paths);
        assert(r@.single_paths =~= dashscope_profile().single_paths);
        r
    }

    /// The profile of the `free.v36.cm` relay.
    pub fn v36() -> (r: AdapterProfile)
        ensures
            r@ == v36_profile(),
    {
        let r = AdapterProfile {
            pattern: "free.v36.cm".to_string(),
            extra_headers: vec![("x-foo".to_string(), "true".to_string())],
            stream_paths: vec![delta_content(), message_content()],
            single_paths: vec![message_content()],
            error_path: error_message(),
        };
        assert(r@.extra_headers =~= v36_profile().extra_headers);
        assert(r@.stream_paths =~= v36_profile().stream_paths);
        assert(r@.single_paths =~= v36_profile().single_paths);
        r
    }

    /// The profile of any other, OpenAI-compatible endpoint.
    pub fn openai() -> (r: AdapterProfile)
        ensures
            r@ == openai_profile(),
    {
        let r = AdapterProfile {
            pattern: String::new(),
            extra_headers: Vec::new(),
            stream_paths: vec![delta_content(), message_content()],
            single_paths: vec![message_content()],
            error_path: error_message(),
        };
        assert(r@.extra_headers =~= openai_profile().extra_headers);
        assert(r@.stream_paths =~= openai_profile().stream_paths);
        assert(r@.single_paths =~= openai_profile().single_paths);
        r
    }

    /// The profile that applies to `url`: the first of the known vendors
    /// whose pattern occurs in it.
    pub fn for_url(url: &str) -> (r: AdapterProfile)
        ensures
            r@ == profile_of(url@),
            select(known_profiles(), url@) == Some(r@),
    {
        let mut table = registry();
        proof {
            lemma_select_known(url@);
        }
        match pick(&table, url) {
            Some(i) => table.swap_remove(i),
            None => AdapterProfile::openai(),
        }
    }
}

/// The table of known vendors, most specific first.
pub fn registry() -> (r: Vec<AdapterProfile>)
    ensures
        table_view(r@) == known_profiles(),
{
    let r = vec![AdapterProfile::dashscope(), AdapterProfile::v36(), AdapterProfile::openai()];
    assert(table_view(r@) =~= known_profiles());
    r
}

/// The place in `table` of the first profile whose pattern occurs in `url`.
pub fn pick(table: &Vec<AdapterProfile>, url: &str) -> (r: Option<usize>)
    ensures
        match r {
            Some(i) => i < table.len() && select(table_view(table@), url@) == Some(table@[i as int]@),
            None => select(table_view(table@), url@) is None,
        },
{
    let ghost views = table_view(table@);
    let mut i: usize = 0;
    assert(views.skip(0) =~= views);
    while i < table.len()
        invariant
            i <= table.len(),
            views == table_view(table@),
            select(views, url@) == select(views.skip(i as int), url@),
        decreases table.len() - i,
    {
        assert(views.skip(i as int)[0] == table@[i as int]@);
        assert(views.skip(i as int).drop_first() =~= views.skip(i as int + 1));
        if str_contains(url, table[i].pattern.as_str()) {
            return Some(i);
        }
        i += 1;
    }
    None
}

} // verus!
