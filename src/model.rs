use vstd::prelude::*;

verus! {

/// One series found by a search.
#[derive(Default, Debug, Clone, PartialEq)]
pub struct SearchData {
    pub book_id: String,
    pub title: String,
    pub author: String,
    pub type_field: String,
    pub play_cnt: i64,
    pub episode_cnt: i64,
    pub cover: String,
    pub intro: String,
}

/// The envelope of a search response.
#[derive(Default, Debug, Clone, PartialEq)]
pub struct SearchModel {
    pub code: i64,
    pub msg: String,
    pub data: Vec<SearchData>,
    pub page: String,
    pub tips: String,
    pub time: String,
}

/// One episode of a series, as the episode listing gives it.
#[derive(Default, Debug, Clone, PartialEq)]
pub struct ResultData {
    pub video_id: String,
    pub title: String,
    pub first_pass_time: String,
    pub volume_name: String,
    pub chapter_word_number: i64,
}

/// The envelope of an episode listing.
#[derive(Default, Debug, Clone, PartialEq)]
pub struct ResultModel {
    pub code: i64,
    pub msg: String,
    pub data: Vec<ResultData>,
    pub total: String,
    pub book_id: String,
    pub book_name: String,
    pub author: String,
    pub category: String,
    pub desc: String,
    pub duration: String,
    pub book_pic: String,
    pub tips: String,
    pub time: String,
}

/// Media details of a resolved episode.
#[derive(Default, Debug, Clone, PartialEq)]
pub struct Info {
    pub quality: String,
    pub fps: i64,
    pub bitrate: String,
    pub codec: String,
    pub duration: String,
    pub size: i64,
    pub size_str: String,
    pub height: i64,
    pub width: i64,
}

/// A resolved episode: its title, cover and direct media URL.
#[derive(Default, Debug, Clone, PartialEq)]
pub struct DetailData {
    pub title: String,
    pub pic: String,
    pub url: String,
    pub info: Info,
}

/// The envelope of an episode resolution.
#[derive(Default, Debug, Clone, PartialEq)]
pub struct DetailModel {
    pub code: i64,
    pub msg: String,
    pub data: DetailData,
    pub tips: String,
    pub time: String,
}

/// The status code of a successful response envelope.
pub const SUCCESS_CODE: i64 = 200;

/// A response envelope whose status code reports a failure.
#[derive(Clone, Copy, Debug, PartialEq, Eq, Structural)]
pub struct ApiError {
    pub code: i64,
}

/// Hands back the payload of an envelope whose code is the success code,
/// and the code as an error otherwise.
pub fn check_envelope<T>(code: i64, data: T) -> (r: Result<T, ApiError>)
    ensures
        code == SUCCESS_CODE ==> r == Ok::<T, ApiError>(data),
        code != SUCCESS_CODE ==> r == Err::<T, ApiError>(ApiError { code }),
{
    if code == SUCCESS_CODE {
        Ok(data)
    } else {
        Err(ApiError { code })
    }
}

impl SearchData {
    /// The text a menu shows for this series: its title.
    pub fn display_text(&self) -> (r: String)
        ensures
            r@ == self.title@,
    {
        self.title.clone()
    }
}

impl ResultData {
    /// The text shown for this episode: its title.
    pub fn display_text(&self) -> (r: String)
        ensures
            r@ == self.title@,
    {
        self.title.clone()
    }
}

impl SearchModel {
    /// The series found, if the envelope reports success.
    pub fn into_data(self) -> (r: Result<Vec<SearchData>, ApiError>)
        ensures
            self.code == SUCCESS_CODE ==> r == Ok::<Vec<SearchData>, ApiError>(self.data),
            self.code != SUCCESS_CODE ==> r == Err::<Vec<SearchData>, ApiError>(
                ApiError { code: self.code },
            ),
    {
        check_envelope(self.code, self.data)
    }
}

impl ResultModel {
    /// The episodes listed, if the envelope reports success.
    pub fn into_data(self) -> (r: Result<Vec<ResultData>, ApiError>)
        ensures
            self.code == SUCCESS_CODE ==> r == Ok::<Vec<ResultData>, ApiError>(self.data),
            self.code != SUCCESS_CODE ==> r == Err::<Vec<ResultData>, ApiError>(
                ApiError { code: self.code },
            ),
    {
        check_envelope(self.code, self.data)
    }
}

impl DetailModel {
    /// The resolved episode, if the envelope reports success.
    pub fn into_data(self) -> (r: Result<DetailData, ApiError>)
        ensures
            self.code == SUCCESS_CODE ==> r == Ok::<DetailData, ApiError>(self.data),
            self.code != SUCCESS_CODE ==> r == Err::<DetailData, ApiError>(
                ApiError { code: self.code },
            ),
    {
        check_envelope(self.code, self.data)
    }
}

/// The titles of the given episodes, in order.
pub fn episode_titles(episodes: &Vec<ResultData>) -> (r: Vec<String>)
    ensures
        r@.len() == episodes@.len(),
        forall|i: int| 0 <= i < r@.len() ==> r@[i]@ == episodes@[i].title@,
{
    let mut out: Vec<String> = Vec::new();
    let mut k: usize = 0;
    while k < episodes.len()
        invariant
            k <= episodes@.len(),
            out@.len() == k,
            forall|i: int| 0 <= i < k ==> out@[i]@ == episodes@[i].title@,
        decreases episodes@.len() - k,
    {
        out.push(episodes[k].display_text());
        k = k + 1;
    }
    out
}

} // verus!
