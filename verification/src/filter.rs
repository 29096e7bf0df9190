//! Which saved posts point at a still image that can be downloaded.
//!
//! A post qualifies by the text of its URL alone: the part after the last
//! `.` has to be `jpg` or `png`, in exactly this spelling.

use vstd::prelude::*;
use vstd::string::*;

verus! {

/// One entry of the collection of saved posts.
#[derive(Debug)]
pub struct SavedItem {
    /// Where the post points to, if it points anywhere.
    pub url: Option<String>,
    /// The grouping key under which the post was saved.
    pub subreddit: String,
}

/// What a saved post is to the contracts: its texts as character sequences.
pub struct SavedItemView {
    pub url: Option<Seq<char>>,
    pub subreddit: Seq<char>,
}

impl View for SavedItem {
    type V = SavedItemView;

    open spec fn view(&self) -> SavedItemView {
        SavedItemView {
            url: match self.url {
                Some(url) => Some(url@),
                None => None,
            },
            subreddit: self.subreddit@,
        }
    }
}

/// A saved post that passed the filter: one image to fetch and store.
#[derive(Debug)]
pub struct MediaRequest {
    /// Where the image is fetched from.
    pub url: String,
    /// The extension of `url`, which names the format the image is stored in.
    pub extension: String,
    /// The grouping key, which names the directory the image is stored in.
    pub subreddit: String,
}

/// What a request is to the contracts.
pub struct MediaRequestView {
    pub url: Seq<char>,
    pub extension: Seq<char>,
    pub subreddit: Seq<char>,
}

impl View for MediaRequest {
    type V = MediaRequestView;

    open spec fn view(&self) -> MediaRequestView {
        MediaRequestView { url: self.url@, extension: self.extension@, subreddit: self.subreddit@ }
    }
}

impl Clone for MediaRequest {
    fn clone(&self) -> (copy: MediaRequest)
        ensures
            copy == *self,
    {
        MediaRequest {
            url: self.url.clone(),
            extension: self.extension.clone(),
            subreddit: self.subreddit.clone(),
        }
    }
}

impl MediaRequestView {
    /// The extension is the one of the URL, and it is an allowed one.
    pub open spec fn valid(self) -> bool {
        self.extension == extension(self.url) && (self.extension == jpg() || self.extension
            == png())
    }
}

/// The characters `jpg`.
pub open spec fn jpg() -> Seq<char> {
    seq!['j', 'p', 'g']
}

/// The characters `png`.
pub open spec fn png() -> Seq<char> {
    seq!['p', 'n', 'g']
}

/// The characters `unknown`, the extension of a URL without any `.`.
pub open spec fn unknown() -> Seq<char> {
    seq!['u', 'n', 'k', 'n', 'o', 'w', 'n']
}

/// The position of the last `.` in `url`, or `-1` where it holds none.
pub open spec fn last_dot(url: Seq<char>) -> int
    decreases url.len(),
{
    if url.len() == 0 {
        -1
    } else if url.last() == '.' {
        url.len() - 1
    } else {
        last_dot(url.drop_last())
    }
}

/// The extension of `url`: what follows its last `.`, or `unknown`.
pub open spec fn extension(url: Seq<char>) -> Seq<char> {
    if last_dot(url) < 0 {
        unknown()
    } else {
        url.subrange(last_dot(url) + 1, url.len() as int)
    }
}

/// `url` ends with the characters of `suffix`.
pub open spec fn ends_with(url: Seq<char>, suffix: Seq<char>) -> bool {
    url.len() >= suffix.len() && url.subrange(url.len() - suffix.len(), url.len() as int) == suffix
}

/// The inclusion rule: the extension is `jpg` or `png`.
pub open spec fn is_image_url(url: Seq<char>) -> bool {
    extension(url) == jpg() || extension(url) == png()
}

/// The request that a saved post gives rise to, if it gives rise to one.
pub open spec fn request_of(item: SavedItemView) -> Option<MediaRequestView> {
    match item.url {
        Some(url) => if is_image_url(url) {
            Some(MediaRequestView { url, extension: extension(url), subreddit: item.subreddit })
        } else {
            None
        },
        None => None,
    }
}

/// The requests of a collection: those of its posts that give rise to one,
/// in the order of the collection.
pub open spec fn accepted(items: Seq<SavedItem>) -> Seq<MediaRequestView>
    decreases items.len(),
{
    if items.len() == 0 {
        Seq::empty()
    } else {
        match request_of(items.last()@) {
            Some(request) => accepted(items.drop_last()).push(request),
            None => accepted(items.drop_last()),
        }
    }
}

/// The views of a sequence of requests.
pub open spec fn request_views(requests: Seq<MediaRequest>) -> Seq<MediaRequestView> {
    requests.map_values(|request: MediaRequest| request@)
}

/// `last_dot` finds a `.` exactly where there is one, and no `.` follows it.
pub proof fn lemma_last_dot(url: Seq<char>)
    ensures
        -1 <= last_dot(url) < url.len(),
        last_dot(url) >= 0 ==> url[last_dot(url)] == '.',
        forall|i: int| last_dot(url) < i < url.len() ==> url[i] != '.',
    decreases url.len(),
{
    if url.len() > 0 && url.last() != '.' {
        let front = url.drop_last();
        lemma_last_dot(front);
        assert forall|i: int| last_dot(url) < i < url.len() implies url[i] != '.' by {
            if i < front.len() {
                assert(url[i] == front[i]);
            }
        }
    }
}

/// A position that holds a `.` and is followed by none is the last dot.
pub proof fn lemma_last_dot_is(url: Seq<char>, at: int)
    requires
        0 <= at < url.len(),
        url[at] == '.',
        forall|i: int| at < i < url.len() ==> url[i] != '.',
    ensures
        last_dot(url) == at,
    decreases url.len(),
{
    if url.last() != '.' {
        let front = url.drop_last();
        assert(at < front.len());
        assert(front[at] == url[at]);
        assert forall|i: int| at < i < front.len() implies front[i] != '.' by {
            assert(front[i] == url[i]);
        }
        lemma_last_dot_is(front, at);
    }
}

/// A URL that holds a `.` has the extension `ext`, itself without a `.`,
/// exactly when it ends with a `.` followed by `ext`.
pub proof fn lemma_extension_of_suffix(url: Seq<char>, ext: Seq<char>)
    requires
        forall|i: int| 0 <= i < ext.len() ==> ext[i] != '.',
    ensures
        last_dot(url) >= 0 ==> (extension(url) == ext <==> ends_with(url, seq!['.'] + ext)),
{
    lemma_last_dot(url);
    let suffix = seq!['.'] + ext;
    let dot = last_dot(url);
    if dot >= 0 {
        if extension(url) == ext {
            assert(url.len() - suffix.len() == dot);
            assert(url.subrange(dot, url.len() as int) =~= suffix);
        }
        if ends_with(url, suffix) {
            let at = url.len() - suffix.len();
            let tail = url.subrange(at, url.len() as int);
            assert(tail[0] == '.');
            assert(url[at] == '.');
            assert forall|i: int| at < i < url.len() implies url[i] != '.' by {
                assert(url[i] == tail[i - at]);
                assert(tail[i - at] == ext[i - at - 1]);
            }
            lemma_last_dot_is(url, at);
            let rest = url.subrange(at + 1, url.len() as int);
            assert(rest.len() == ext.len());
            assert forall|i: int| 0 <= i < rest.len() implies rest[i] == ext[i] by {
                assert(rest[i] == url[at + 1 + i]);
                assert(tail[i + 1] == url[at + 1 + i]);
                assert(suffix[i + 1] == ext[i]);
            }
            assert(rest =~= ext);
        }
    }
}

/// The inclusion rule accepts exactly the URLs that end in `.jpg` or `.png`.
pub proof fn lemma_image_url_by_suffix(url: Seq<char>)
    ensures
        is_image_url(url) <==> ends_with(url, seq!['.', 'j', 'p', 'g']) || ends_with(
            url,
            seq!['.', 'p', 'n', 'g'],
        ),
{
    lemma_last_dot(url);
    assert(seq!['.'] + jpg() =~= seq!['.', 'j', 'p', 'g']);
    assert(seq!['.'] + png() =~= seq!['.', 'p', 'n', 'g']);
    lemma_extension_of_suffix(url, jpg());
    lemma_extension_of_suffix(url, png());
    if last_dot(url) < 0 {
        assert(unknown().len() == 7);
        assert(jpg().len() == 3);
        assert(png().len() == 3);
        if ends_with(url, seq!['.', 'j', 'p', 'g']) {
            let at = url.len() - 4;
            assert(url.subrange(at, url.len() as int)[0] == '.');
            assert(url[at] == '.');
        }
        if ends_with(url, seq!['.', 'p', 'n', 'g']) {
            let at = url.len() - 4;
            assert(url.subrange(at, url.len() as int)[0] == '.');
            assert(url[at] == '.');
        }
    }
}

/// The filter accepts exactly the posts whose URL ends in `.jpg` or `.png`.
/// Every other post is rejected: one without a URL, one with another
/// extension, one without any extension.
pub proof fn lemma_filter_accepts_by_suffix(item: SavedItemView)
    ensures
        request_of(item) is Some <==> (item.url matches Some(url) && (ends_with(
            url,
            seq!['.', 'j', 'p', 'g'],
        ) || ends_with(url, seq!['.', 'p', 'n', 'g']))),
        request_of(item) matches Some(request) ==> request.valid() && Some(request.url) == item.url
            && request.subreddit == item.subreddit,
{
    if let Some(url) = item.url {
        lemma_image_url_by_suffix(url);
    }
}

/// A post that the filter rejects adds nothing to the work set of a
/// collection; one that it accepts adds its request at the end.
pub proof fn lemma_accepted_push(items: Seq<SavedItem>, item: SavedItem)
    ensures
        accepted(items.push(item)) == match request_of(item@) {
            Some(request) => accepted(items).push(request),
            None => accepted(items),
        },
{
    assert(items.push(item).drop_last() =~= items);
}

/// Every request of a work set is valid, and there are no more requests
/// than posts.
pub proof fn lemma_accepted_valid(items: Seq<SavedItem>)
    ensures
        accepted(items).len() <= items.len(),
        forall|i: int| 0 <= i < accepted(items).len() ==> (#[trigger] accepted(items)[i]).valid(),
    decreases items.len(),
{
    if items.len() > 0 {
        lemma_accepted_valid(items.drop_last());
    }
}

/// The position of the last `.` in `url`, counted in characters.
fn find_last_dot(url: &str) -> (found: Option<usize>)
    ensures
        found is None <==> last_dot(url@) < 0,
        found matches Some(at) ==> at == last_dot(url@),
{
    let mut found: Option<usize> = None;
    let mut seen: usize = 0;
    let total: usize = url.unicode_len();
    for c in it: url.chars()
        invariant
            it.seq() == url@,
            seen == it.index(),
            total == url@.len(),
            found is None <==> last_dot(url@.take(seen as int)) < 0,
            found matches Some(at) ==> at == last_dot(url@.take(seen as int)),
    {
        proof {
            let longer = url@.take(seen + 1);
            assert(longer.drop_last() =~= url@.take(seen as int));
            assert(longer.last() == c);
        }
        if c == '.' {
            found = Some(seen);
        }
        seen = seen + 1;
    }
    proof {
        assert(url@.take(seen as int) =~= url@);
    }
    found
}

/// What follows the last `.` of `url`, or `unknown` where it holds no `.`.
pub fn extension_of(url: &str) -> (ext: String)
    ensures
        ext@ == extension(url@),
{
    match find_last_dot(url) {
        None => {
            proof {
                reveal_strlit("unknown");
                assert("unknown"@ =~= unknown());
            }
            String::from_str("unknown")
        },
        Some(at) => {
            proof {
                lemma_last_dot(url@);
            }
            let total: usize = url.unicode_len();
            String::from_str(url.substring_char(at + 1, total))
        },
    }
}

/// Whether a URL with this text is accepted by the inclusion rule.
pub fn accepts(url: &str) -> (accepted: bool)
    ensures
        accepted == is_image_url(url@),
{
    let ext = extension_of(url);
    proof {
        reveal_strlit("jpg");
        reveal_strlit("png");
        assert("jpg"@ =~= jpg());
        assert("png"@ =~= png());
    }
    ext == String::from_str("jpg") || ext == String::from_str("png")
}

/// The filter: the request for the image that `item` points to.
///
/// A post without a URL, or with a URL whose extension is not `jpg` or
/// `png`, gives no request; that is no error.
pub fn media_request(item: &SavedItem) -> (request: Option<MediaRequest>)
    ensures
        request is Some <==> request_of(item@) is Some,
        request matches Some(r) ==> Some(r@) == request_of(item@) && r@.valid(),
{
    match &item.url {
        None => None,
        Some(url) => {
            if accepts(url.as_str()) {
                Some(
                    MediaRequest {
                        url: url.clone(),
                        extension: extension_of(url.as_str()),
                        subreddit: item.subreddit.clone(),
                    },
                )
            } else {
                None
            }
        },
    }
}

/// The work set of a collection: one request for each post that the filter
/// accepts, in the order of the collection.
pub fn accepted_requests(items: &Vec<SavedItem>) -> (requests: Vec<MediaRequest>)
    ensures
        request_views(requests@) == accepted(items@),
        forall|i: int| 0 <= i < requests.len() ==> (#[trigger] requests[i])@.valid(),
{
    let mut requests: Vec<MediaRequest> = Vec::new();
    let mut done: usize = 0;
    while done < items.len()
        invariant
            done <= items.len(),
            request_views(requests@) == accepted(items@.take(done as int)),
            forall|i: int| 0 <= i < requests.len() ==> (#[trigger] requests[i])@.valid(),
        decreases items.len() - done,
    {
        let ghost before = requests@;
        proof {
            assert(items@.take(done + 1).drop_last() =~= items@.take(done as int));
            assert(items@.take(done + 1).last() == items@[done as int]);
        }
        if let Some(request) = media_request(&items[done]) {
            requests.push(request);
            proof {
                assert(request_views(requests@) =~= request_views(before).push(request@));
            }
        }
        done = done + 1;
    }
    proof {
        assert(items@.take(done as int) =~= items@);
    }
    requests
}

} // verus!
