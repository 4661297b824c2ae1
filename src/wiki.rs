use vstd::prelude::*;

verus! {

/// How results are written.
#[derive(Debug, Clone, Copy)]
pub struct OutputMode {
    pub json: bool,
    pub quiet: bool,
    pub verbose: bool,
}

/// Flags shared by every lookup command.
#[derive(Debug, Clone, Copy)]
pub struct GlobalArgs {
    pub json: bool,
    pub quiet: bool,
    pub verbose: bool,
}

/// Arguments of a search.
#[derive(Debug)]
pub struct SearchArgs {
    pub query: String,
    pub limit: usize,
    pub lang: String,
}

/// Arguments of a page lookup.
#[derive(Debug)]
pub struct GetArgs {
    pub title: String,
    pub lang: String,
}

/// The ways a lookup can fail.
#[derive(Debug)]
pub enum AppError {
    Request,
    Parse,
    NotFound,
    InvalidLanguage,
}

/// The machine-readable code of each error kind.
pub open spec fn app_error_code(e: AppError) -> Seq<char> {
    match e {
        AppError::Request => "REQUEST_FAILED"@,
        AppError::Parse => "PARSE_FAILED"@,
        AppError::NotFound => "NOT_FOUND"@,
        AppError::InvalidLanguage => "INVALID_LANGUAGE"@,
    }
}

impl AppError {
    /// The stable code that names this error's kind.
    pub fn code(&self) -> (r: &'static str)
        ensures
            r@ == app_error_code(*self),
    {
        match self {
            AppError::Request => "REQUEST_FAILED",
            AppError::Parse => "PARSE_FAILED",
            AppError::NotFound => "NOT_FOUND",
            AppError::InvalidLanguage => "INVALID_LANGUAGE",
        }
    }
}

/// An error as reported to the caller.
#[derive(Debug)]
pub struct ErrorJson {
    pub ok: bool,
    pub error: String,
    pub code: String,
}

/// One search hit.
#[derive(Debug)]
pub struct SearchItem {
    pub title: String,
    pub description: String,
    pub url: String,
    pub lang: String,
}

/// All hits of a search.
#[derive(Debug)]
pub struct SearchResponse {
    pub ok: bool,
    pub count: usize,
    pub items: Vec<SearchItem>,
}

/// A page summary.
#[derive(Debug)]
pub struct WikiItem {
    pub title: String,
    pub extract: String,
    pub url: String,
    pub thumbnail: String,
    pub lang: String,
}

/// A successful page lookup.
#[derive(Debug)]
pub struct ItemResponse {
    pub ok: bool,
    pub item: WikiItem,
}

/// The page-summary payload, with every field optional.
#[derive(Debug)]
pub struct SummaryApi {
    pub title: Option<String>,
    pub extract: Option<String>,
    pub content_urls: Option<ContentUrls>,
    pub thumbnail: Option<Thumbnail>,
}

/// The URLs of a page.
#[derive(Debug)]
pub struct ContentUrls {
    pub desktop: Option<Desktop>,
}

/// The desktop variant of a page.
#[derive(Debug)]
pub struct Desktop {
    pub page: Option<String>,
}

/// The thumbnail image of a page.
#[derive(Debug)]
pub struct Thumbnail {
    pub source: Option<String>,
}

/// A language code is non-empty and made of ASCII letters and `-`.
pub open spec fn lang_code_ok(lang: Seq<char>) -> bool {
    lang.len() > 0 && forall|i: int|
        0 <= i < lang.len() ==> ('a' <= #[trigger] lang[i] <= 'z' || 'A' <= lang[i] <= 'Z' || lang[i]
            == '-')
}

/// Checks a language code before it is put into a host name.
pub fn validate_lang(lang: &str) -> (r: Result<(), AppError>)
    ensures
        r is Ok <==> lang_code_ok(lang@),
        r is Err ==> r == Err::<(), AppError>(AppError::InvalidLanguage),
{
    let n = lang.unicode_len();
    if n == 0 {
        return Err(AppError::InvalidLanguage);
    }
    let mut i: usize = 0;
    while i < n
        invariant
            n == lang@.len(),
            i <= n,
            forall|k: int|
                0 <= k < i ==> ('a' <= #[trigger] lang@[k] <= 'z' || 'A' <= lang@[k] <= 'Z' || lang@[k]
                    == '-'),
        decreases n - i,
    {
        let c = lang.get_char(i);
        if !(('a' <= c && c <= 'z') || ('A' <= c && c <= 'Z') || c == '-') {
            return Err(AppError::InvalidLanguage);
        }
        i = i + 1;
    }
    Ok(())
}

/// How many abbreviations are known not to end a sentence.
pub const ABBREVIATION_COUNT: usize = 26;

/// Common abbreviations that end with a dot but do not end a sentence.
pub open spec fn abbreviation(i: usize) -> Seq<char> {
    match i {
        0 => "Dr."@,
        1 => "Mr."@,
        2 => "Mrs."@,
        3 => "Ms."@,
        4 => "Prof."@,
        5 => "St."@,
        6 => "Jr."@,
        7 => "Sr."@,
        8 => "U.S."@,
        9 => "U.K."@,
        10 => "e.g."@,
        11 => "i.e."@,
        12 => "etc."@,
        13 => "vs."@,
        14 => "approx."@,
        15 => "Jan."@,
        16 => "Feb."@,
        17 => "Mar."@,
        18 => "Apr."@,
        19 => "Jun."@,
        20 => "Jul."@,
        21 => "Aug."@,
        22 => "Sep."@,
        23 => "Oct."@,
        24 => "Nov."@,
        _ => "Dec."@,
    }
}

/// The abbreviation at position `i` of the list.
fn abbreviation_at(i: usize) -> (r: &'static str)
    requires
        i < ABBREVIATION_COUNT,
    ensures
        r@ == abbreviation(i),
{
    match i {
        0 => "Dr.",
        1 => "Mr.",
        2 => "Mrs.",
        3 => "Ms.",
        4 => "Prof.",
        5 => "St.",
        6 => "Jr.",
        7 => "Sr.",
        8 => "U.S.",
        9 => "U.K.",
        10 => "e.g.",
        11 => "i.e.",
        12 => "etc.",
        13 => "vs.",
        14 => "approx.",
        15 => "Jan.",
        16 => "Feb.",
        17 => "Mar.",
        18 => "Apr.",
        19 => "Jun.",
        20 => "Jul.",
        21 => "Aug.",
        22 => "Sep.",
        23 => "Oct.",
        24 => "Nov.",
        _ => "Dec.",
    }
}

/// `s` ends with `suffix`.
pub open spec fn ends_with(s: Seq<char>, suffix: Seq<char>) -> bool {
    suffix.len() <= s.len() && s.subrange(s.len() - suffix.len(), s.len() as int) == suffix
}

/// The text up to and including position `pos` ends with a known
/// abbreviation.
pub open spec fn abbreviation_ends_at(s: Seq<char>, pos: int) -> bool {
    exists|i: usize| i < ABBREVIATION_COUNT && #[trigger] ends_with(s.subrange(0, pos + 1), abbreviation(i))
}

/// A ". " starts at `pos`.
pub open spec fn break_at(s: Seq<char>, pos: int) -> bool {
    0 <= pos && pos + 1 < s.len() && s[pos] == '.' && s[pos + 1] == ' '
}

/// The first sentence of `s`, looking for its end from position `from`:
/// text through the first ". " whose dot does not close an abbreviation,
/// or all of `s` when there is none.
pub open spec fn first_sentence_from(s: Seq<char>, from: int) -> Seq<char>
    decreases s.len() - from,
{
    if from < 0 || from + 1 >= s.len() {
        s
    } else if break_at(s, from) && !abbreviation_ends_at(s, from) {
        s.subrange(0, from + 1)
    } else {
        first_sentence_from(s, from + 1)
    }
}

/// Whether `s@[..=pos]` ends with `a`.
fn text_ends_with(s: &str, pos: usize, a: &str) -> (r: bool)
    requires
        pos < s@.len(),
    ensures
        r == ends_with(s@.subrange(0, pos as int + 1), a@),
{
    let n = a.unicode_len();
    if n > pos && n - pos > 1 {
        return false;
    }
    if n == 0 {
        assert(s@.subrange(0, pos as int + 1).subrange(pos as int + 1, pos as int + 1) =~= a@);
        return true;
    }
    let start = pos - (n - 1);
    let mut k: usize = 0;
    while k < n
        invariant
            n == a@.len(),
            start + n == pos + 1,
            pos < s@.len(),
            k <= n,
            forall|j: int| 0 <= j < k ==> s@[start + j] == a@[j],
        decreases n - k,
    {
        if s.get_char(start + k) != a.get_char(k) {
            assert(s@.subrange(0, pos as int + 1).subrange(start as int, pos as int + 1)[k as int] != a@[k as int]);
            return false;
        }
        k = k + 1;
    }
    assert(s@.subrange(0, pos as int + 1).subrange(start as int, pos as int + 1) =~= a@);
    true
}

/// Whether a known abbreviation ends at `pos`.
fn ends_abbreviation(s: &str, pos: usize) -> (r: bool)
    requires
        pos < s@.len(),
    ensures
        r == abbreviation_ends_at(s@, pos as int),
{
    let mut i: usize = 0;
    while i < ABBREVIATION_COUNT
        invariant
            pos < s@.len(),
            forall|j: usize| j < i ==> !#[trigger] ends_with(s@.subrange(0, pos + 1), abbreviation(j)),
        decreases ABBREVIATION_COUNT - i,
    {
        if text_ends_with(s, pos, abbreviation_at(i)) {
            return true;
        }
        i = i + 1;
    }
    false
}

/// The first sentence of `input`: the text through the first ". " that
/// does not close a common abbreviation, or the whole input.
pub fn first_sentence(input: &str) -> (r: String)
    ensures
        r@ == first_sentence_from(input@, 0),
{
    let n = input.unicode_len();
    let mut from: usize = 0;
    while from < n && n - from > 1
        invariant
            n == input@.len(),
            first_sentence_from(input@, 0) == first_sentence_from(input@, from as int),
        decreases n - from,
    {
        if input.get_char(from) == '.' && input.get_char(from + 1) == ' ' && !ends_abbreviation(input, from) {
            return input.substring_char(0, from + 1).to_string();
        }
        from = from + 1;
    }
    input.to_string()
}

/// The text an optional field holds, or the empty text.
pub open spec fn text_or_empty(t: Option<String>) -> Seq<char> {
    match t {
        Some(s) => s@,
        None => Seq::empty(),
    }
}

/// The desktop page URL of a payload, or the empty text.
pub open spec fn page_url_of(p: SummaryApi) -> Seq<char> {
    match p.content_urls {
        Some(ContentUrls { desktop: Some(d) }) => text_or_empty(d.page),
        _ => Seq::empty(),
    }
}

/// The thumbnail source of a payload, or the empty text.
pub open spec fn thumbnail_of(p: SummaryApi) -> Seq<char> {
    match p.thumbnail {
        Some(t) => text_or_empty(t.source),
        None => Seq::empty(),
    }
}

/// A status code in the success range.
pub open spec fn status_success(status: u16) -> bool {
    200 <= status <= 299
}

/// The outcome of a page lookup for `args` that was answered with
/// `status` and, where its body could be read, `page`. A concise lookup
/// keeps only the first sentence of the extract.
pub open spec fn page_outcome(
    r: Result<ItemResponse, AppError>,
    args: GetArgs,
    status: u16,
    page: Option<SummaryApi>,
    concise: bool,
) -> bool {
    if !lang_code_ok(args.lang@) {
        r == Err::<ItemResponse, AppError>(AppError::InvalidLanguage)
    } else if status == 404 {
        r == Err::<ItemResponse, AppError>(AppError::NotFound)
    } else if !status_success(status) {
        r == Err::<ItemResponse, AppError>(AppError::Request)
    } else {
        match page {
            None => r == Err::<ItemResponse, AppError>(AppError::Parse),
            Some(p) => if text_or_empty(p.title).len() == 0 {
                r == Err::<ItemResponse, AppError>(AppError::NotFound)
            } else {
                r matches Ok(resp) && {
                    &&& resp.ok
                    &&& resp.item.title@ == text_or_empty(p.title)
                    &&& resp.item.extract@ == if concise {
                        first_sentence_from(text_or_empty(p.extract), 0)
                    } else {
                        text_or_empty(p.extract)
                    }
                    &&& resp.item.url@ == page_url_of(p)
                    &&& resp.item.thumbnail@ == thumbnail_of(p)
                    &&& resp.item.lang@ == args.lang@
                }
            },
        }
    }
}

/// The text an optional field holds, or an empty string.
fn take_text(t: Option<String>) -> (r: String)
    ensures
        r@ == text_or_empty(t),
{
    match t {
        Some(s) => s,
        None => String::new(),
    }
}

/// A page item from the lookup's status and payload; `concise` keeps
/// the first sentence of the extract only.
fn page_summary(args: &GetArgs, status: u16, page: Option<SummaryApi>, concise: bool) -> (r: Result<
    ItemResponse,
    AppError,
>)
    ensures
        page_outcome(r, *args, status, page, concise),
{
    validate_lang(args.lang.as_str())?;
    if status == 404 {
        return Err(AppError::NotFound);
    }
    if !(200 <= status && status <= 299) {
        return Err(AppError::Request);
    }
    let p = match page {
        Some(p) => p,
        None => {
            return Err(AppError::Parse);
        },
    };
    let ghost p0 = p;
    let title = take_text(p.title);
    let full = take_text(p.extract);
    let extract = if concise {
        first_sentence(full.as_str())
    } else {
        full
    };
    let url = match p.content_urls {
        Some(ContentUrls { desktop: Some(d) }) => take_text(d.page),
        _ => String::new(),
    };
    let thumbnail = match p.thumbnail {
        Some(t) => take_text(t.source),
        None => String::new(),
    };
    if title.unicode_len() == 0 {
        return Err(AppError::NotFound);
    }
    assert(url@ == page_url_of(p0));
    Ok(ItemResponse { ok: true, item: WikiItem { title, extract, url, thumbnail, lang: args.lang.clone() } })
}

/// The full summary of a page, from the lookup's HTTP status and its
/// payload (`None` when the body could not be read).
pub fn get(args: &GetArgs, status: u16, page: Option<SummaryApi>) -> (r: Result<ItemResponse, AppError>)
    ensures
        page_outcome(r, *args, status, page, false),
{
    page_summary(args, status, page, false)
}

/// The summary of a page cut to its first sentence, from the lookup's HTTP
/// status and its payload (`None` when the body could not be read).
pub fn summary(args: &GetArgs, status: u16, page: Option<SummaryApi>) -> (r: Result<ItemResponse, AppError>)
    ensures
        page_outcome(r, *args, status, page, true),
{
    page_summary(args, status, page, true)
}

/// Text of position `i` of an answer column: empty when the column is too
/// short or the value there is not text.
pub open spec fn column_text(col: Seq<Option<String>>, i: int) -> Seq<char> {
    if 0 <= i < col.len() {
        text_or_empty(col[i])
    } else {
        Seq::empty()
    }
}

/// `r` lists one hit per title of a search in language `lang`.
pub open spec fn search_items_of(
    items: Seq<SearchItem>,
    lang: Seq<char>,
    titles: Seq<Option<String>>,
    descriptions: Seq<Option<String>>,
    urls: Seq<Option<String>>,
) -> bool {
    &&& items.len() == titles.len()
    &&& forall|i: int|
        0 <= i < items.len() ==> {
            &&& (#[trigger] items[i]).title@ == column_text(titles, i)
            &&& items[i].description@ == column_text(descriptions, i)
            &&& items[i].url@ == column_text(urls, i)
            &&& items[i].lang@ == lang
        }
}

/// The text at position `i` of an answer column, or an empty string.
fn column_at(col: &Vec<Option<String>>, i: usize) -> (r: String)
    ensures
        r@ == column_text(col@, i as int),
{
    if i < col.len() {
        match &col[i] {
            Some(t) => t.clone(),
            None => String::new(),
        }
    } else {
        String::new()
    }
}

/// The hits of a search from the columns of the answer (titles,
/// descriptions, URLs); `None` for a column that was missing, `None` in a
/// column for a value that was not text.
pub fn search(
    args: &SearchArgs,
    titles: Option<Vec<Option<String>>>,
    descriptions: Option<Vec<Option<String>>>,
    urls: Option<Vec<Option<String>>>,
) -> (r: Result<SearchResponse, AppError>)
    ensures
        !lang_code_ok(args.lang@) ==> r == Err::<SearchResponse, AppError>(AppError::InvalidLanguage),
        lang_code_ok(args.lang@) && (titles is None || descriptions is None || urls is None) ==> r
            == Err::<SearchResponse, AppError>(AppError::Parse),
        lang_code_ok(args.lang@) && titles is Some && descriptions is Some && urls is Some ==> (r matches Ok(
            resp,
        ) && resp.ok && resp.count == resp.items@.len() && search_items_of(
            resp.items@,
            args.lang@,
            titles->Some_0@,
            descriptions->Some_0@,
            urls->Some_0@,
        )),
{
    validate_lang(args.lang.as_str())?;
    let (titles, descriptions, urls) = match (titles, descriptions, urls) {
        (Some(t), Some(d), Some(u)) => (t, d, u),
        _ => {
            return Err(AppError::Parse);
        },
    };
    let mut items: Vec<SearchItem> = Vec::new();
    let mut i: usize = 0;
    while i < titles.len()
        invariant
            i <= titles@.len(),
            items@.len() == i,
            forall|k: int|
                0 <= k < i ==> {
                    &&& (#[trigger] items@[k]).title@ == column_text(titles@, k)
                    &&& items@[k].description@ == column_text(descriptions@, k)
                    &&& items@[k].url@ == column_text(urls@, k)
                    &&& items@[k].lang@ == args.lang@
                },
        decreases titles@.len() - i,
    {
        let item = SearchItem {
            title: column_at(&titles, i),
            description: column_at(&descriptions, i),
            url: column_at(&urls, i),
            lang: args.lang.clone(),
        };
        items.push(item);
        i = i + 1;
    }
    Ok(SearchResponse { ok: true, count: items.len(), items })
}

} // verus!
