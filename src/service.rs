use vstd::prelude::*;
use crate::guard::GuardMode;
use crate::text::{contains, decimal, push_decimal, push_signed_decimal, seq_contains, signed_decimal};

verus! {

/// Failures of a request handler.
#[derive(Debug, Clone, Copy, PartialEq, Eq, Structural)]
pub enum ActionError {
    /// An argument of the request is outside what the service accepts.
    BadParameter,
}

/// The category keys of the activity list, by category index.
pub open spec fn category_key(index: int) -> Seq<char> {
    if index == 0 { ""@ }
    else if index == 1 { "001"@ }
    else if index == 2 { "8ab17f543fe62d5d013fe62efd3a0002"@ }
    else if index == 3 { "ff8080814e241104014eb867e1481dc3"@ }
    else if index == 4 { "8F963F2A04013A66E0540021287E4866"@ }
    else if index == 5 { "8ab17f543fe62d5d013fe62e6dc70001"@ }
    else if index == 6 { "8ab17f2a3fe6585e013fe6596c300001"@ }
    else if index == 7 { "ff808081674ec4720167ce60dda77cea"@ }
    else if index == 8 { "8ab17f543fe626a8013fe6278a880001"@ }
    else if index == 9 { "402881de5d62ba57015d6320f1a7000c"@ }
    else if index == 10 { "8ab17f533ff05c27013ff06d10bf0001"@ }
    else { "ff8080814e241104014fedbbf7fd329d"@ }
}

/// Number of known categories; index 0 stands for "any category".
pub const CATEGORY_COUNT: i32 = 12;

/// Translates a category index into the key that the activity list expects.
pub fn tran_category(category: i32) -> (r: Result<String, ActionError>)
    ensures
        0 <= category < CATEGORY_COUNT ==> r is Ok && r->Ok_0@ == category_key(category as int),
        !(0 <= category < CATEGORY_COUNT) ==> r == Err::<String, ActionError>(ActionError::BadParameter),
{
    let key: &str = match category {
        0 => "",
        1 => "001",
        2 => "8ab17f543fe62d5d013fe62efd3a0002",
        3 => "ff8080814e241104014eb867e1481dc3",
        4 => "8F963F2A04013A66E0540021287E4866",
        5 => "8ab17f543fe62d5d013fe62e6dc70001",
        6 => "8ab17f2a3fe6585e013fe6596c300001",
        7 => "ff808081674ec4720167ce60dda77cea",
        8 => "8ab17f543fe626a8013fe6278a880001",
        9 => "402881de5d62ba57015d6320f1a7000c",
        10 => "8ab17f533ff05c27013ff06d10bf0001",
        11 => "ff8080814e241104014fedbbf7fd329d",
        _ => {
            return Err(ActionError::BadParameter);
        },
    };
    Ok(String::from_str(key))
}

/// Where the list of activities is served.
pub open spec fn activity_list_base() -> Seq<char> {
    "http://sc.sit.edu.cn/public/activity/activityList.action?"@
}

/// Where the detail of one activity is served.
pub open spec fn activity_detail_base() -> Seq<char> {
    "http://sc.sit.edu.cn/public/activity/activityDetail.action?activityId="@
}

/// The page of the account's own score.
pub open spec fn my_score_url() -> Seq<char> {
    "http://sc.sit.edu.cn/public/pcenter/scoreDetail.action"@
}

/// The page of the account's own activities.
pub open spec fn my_activity_url() -> Seq<char> {
    "http://sc.sit.edu.cn/public/pcenter/activityOrderList.action?pageSize=200"@
}

/// The address of one page of the activity list.
pub open spec fn activity_list_url(count: u16, index: u16, key: Seq<char>) -> Seq<char> {
    activity_list_base() + "pageNo="@ + decimal(index as nat) + "&pageSize="@ + decimal(count as nat)
        + "&categoryId="@ + key
}

/// Where a request gets its session from.
#[derive(Debug, Clone, PartialEq, Eq)]
pub enum SessionSource {
    /// Any stored session, drawn at random.
    Random,
    /// The session of this account, logging in with the password if none is stored.
    Account { account: String, password: String },
}

/// How one request is carried out against the service: which session it
/// uses, how the session is checked, and which page is fetched.
pub struct FetchPlan {
    pub session: SessionSource,
    pub guard: GuardMode,
    pub url: String,
    /// Whether the images of the fetched detail are downloaded too.
    pub fetch_images: bool,
}

/// Lists one page of activities of one category.
#[derive(Debug, Clone, Copy, PartialEq, Eq, Structural)]
pub struct ActivityListRequest {
    /// Count of activities per page.
    pub count: u16,
    /// Page index.
    pub index: u16,
    /// Category index.
    pub category: i32,
}

impl ActivityListRequest {
    /// A random session, checked eagerly, then the list page; a category
    /// index outside the known ones is refused.
    pub fn plan(&self) -> (r: Result<FetchPlan, ActionError>)
        ensures
            0 <= self.category < CATEGORY_COUNT ==> (r matches Ok(p) && p.session == SessionSource::Random
                && p.guard == GuardMode::Eager && !p.fetch_images
                && p.url@ == activity_list_url(self.count, self.index, category_key(self.category as int))),
            !(0 <= self.category < CATEGORY_COUNT) ==> (r matches Err(e) && e == ActionError::BadParameter),
    {
        let key = match tran_category(self.category) {
            Ok(key) => key,
            Err(e) => {
                return Err(e);
            },
        };
        let mut url = String::from_str("http://sc.sit.edu.cn/public/activity/activityList.action?");
        url.append("pageNo=");
        push_decimal(&mut url, self.index as u32);
        url.append("&pageSize=");
        push_decimal(&mut url, self.count as u32);
        url.append("&categoryId=");
        url.append(key.as_str());
        Ok(FetchPlan { session: SessionSource::Random, guard: GuardMode::Eager, url, fetch_images: false })
    }
}

/// An activity as the list page shows it.
#[derive(Debug, Clone, PartialEq, Eq)]
pub struct Activity {
    pub id: i32,
    pub title: String,
    /// Category index, as the request gave it.
    pub category: i32,
}

/// Marks each listed activity with the category it was listed under; the
/// list keeps its order and each activity its other fields.
pub fn tag_category(activities: Vec<Activity>, category: i32) -> (r: Vec<Activity>)
    ensures
        r@.len() == activities@.len(),
        forall|i: int| 0 <= i < r@.len() ==> (#[trigger] r@[i]).category == category
            && r@[i].id == activities@[i].id && r@[i].title == activities@[i].title,
{
    let mut activities = activities;
    let ghost original = activities@;
    let mut i: usize = 0;
    while i < activities.len()
        invariant
            0 <= i <= activities@.len(),
            activities@.len() == original.len(),
            forall|k: int| 0 <= k < i ==> (#[trigger] activities@[k]).category == category,
            forall|k: int| 0 <= k < activities@.len() ==> (#[trigger] activities@[k]).id == original[k].id
                && activities@[k].title == original[k].title,
        decreases activities@.len() - i,
    {
        let mut a = activities.remove(i);
        a.category = category;
        activities.insert(i, a);
        i = i + 1;
    }
    activities
}

/// Fetches the detail of one activity, with its images.
#[derive(Debug, Clone, Copy, PartialEq, Eq, Structural)]
pub struct ActivityDetailRequest {
    /// Activity id in the service.
    pub id: i32,
}

/// The address of an activity's detail page.
pub open spec fn activity_detail_url(id: i32) -> Seq<char> {
    activity_detail_base() + signed_decimal(id as int)
}

impl ActivityDetailRequest {
    /// A random session, checked lazily around the detail page, then its images.
    pub fn plan(&self) -> (r: FetchPlan)
        ensures
            r.session == SessionSource::Random,
            r.guard == GuardMode::Lazy,
            r.fetch_images,
            r.url@ == activity_detail_url(self.id),
    {
        let mut url = String::from_str("http://sc.sit.edu.cn/public/activity/activityDetail.action?activityId=");
        push_signed_decimal(&mut url, self.id);
        FetchPlan { session: SessionSource::Random, guard: GuardMode::Lazy, url, fetch_images: true }
    }
}

fn account_source(account: &String, password: &String) -> (r: SessionSource)
    ensures
        r matches SessionSource::Account { account: a, password: p } && a@ == account@ && p@ == password@,
{
    SessionSource::Account { account: account.clone(), password: password.clone() }
}

/// Fetches the account's own score summary.
#[derive(Debug, Clone, PartialEq, Eq)]
pub struct ScScoreItemRequest {
    pub account: String,
    pub password: String,
}

impl ScScoreItemRequest {
    /// The account's session, checked eagerly, then its score page.
    pub fn plan(&self) -> (r: FetchPlan)
        ensures
            r.session matches SessionSource::Account { account: a, password: p } && a@ == self.account@
                && p@ == self.password@,
            r.guard == GuardMode::Eager,
            !r.fetch_images,
            r.url@ == my_score_url(),
    {
        FetchPlan {
            session: account_source(&self.account, &self.password),
            guard: GuardMode::Eager,
            url: String::from_str("http://sc.sit.edu.cn/public/pcenter/scoreDetail.action"),
            fetch_images: false,
        }
    }
}

/// Fetches the account's own activities.
#[derive(Debug, Clone, PartialEq, Eq)]
pub struct ScActivityRequest {
    pub account: String,
    pub password: String,
}

impl ScActivityRequest {
    /// The account's session, checked eagerly, then its activity page.
    pub fn plan(&self) -> (r: FetchPlan)
        ensures
            r.session matches SessionSource::Account { account: a, password: p } && a@ == self.account@
                && p@ == self.password@,
            r.guard == GuardMode::Eager,
            !r.fetch_images,
            r.url@ == my_activity_url(),
    {
        FetchPlan {
            session: account_source(&self.account, &self.password),
            guard: GuardMode::Eager,
            url: String::from_str("http://sc.sit.edu.cn/public/pcenter/activityOrderList.action?pageSize=200"),
            fetch_images: false,
        }
    }
}

/// Joins an activity for the account.
#[derive(Debug, Clone, PartialEq, Eq)]
pub struct ScJoinRequest {
    pub account: String,
    pub password: String,
    pub activity_id: i32,
    pub force: bool,
}

impl ScJoinRequest {
    /// The account's session, checked eagerly, then its activity page, which
    /// is read back in place of a join action of its own.
    pub fn plan(&self) -> (r: FetchPlan)
        ensures
            r.session matches SessionSource::Account { account: a, password: p } && a@ == self.account@
                && p@ == self.password@,
            r.guard == GuardMode::Eager,
            !r.fetch_images,
            r.url@ == my_activity_url(),
    {
        FetchPlan {
            session: account_source(&self.account, &self.password),
            guard: GuardMode::Eager,
            url: String::from_str("http://sc.sit.edu.cn/public/pcenter/activityOrderList.action?pageSize=200"),
            fetch_images: false,
        }
    }
}

/// An image of an activity's detail, with its content once downloaded.
#[derive(Debug, Clone, PartialEq, Eq)]
pub struct ScImages {
    /// The path or address of the image as the page gives it.
    pub old_name: String,
    /// The image's bytes; empty until downloaded.
    pub content: Vec<u8>,
}

/// The address an image is downloaded from: its name as it is when it already
/// names one of the service's hosts, else the name under the service's host.
pub open spec fn image_url(old_name: Seq<char>) -> Seq<char> {
    if seq_contains(old_name, "sc.sit.edu.cn"@) || seq_contains(old_name, "job.sit.edu.cn"@) {
        old_name
    } else {
        "http://sc.sit.edu.cn"@ + old_name
    }
}

pub fn match_image_url(old_name: &str) -> (r: String)
    ensures
        r@ == image_url(old_name@),
{
    if contains(old_name, "sc.sit.edu.cn") || contains(old_name, "job.sit.edu.cn") {
        String::from_str(old_name)
    } else {
        let mut url = String::from_str("http://sc.sit.edu.cn");
        url.append(old_name);
        url
    }
}

/// The positions of the images still to download, in order: exactly those
/// whose content is empty.
pub fn images_to_fetch(images: &Vec<ScImages>) -> (r: Vec<usize>)
    ensures
        forall|k: int| 0 <= k < r@.len() ==> (#[trigger] r@[k] as int) < images@.len()
            && images@[r@[k] as int].content@.len() == 0,
        forall|i: int| 0 <= i < images@.len() && (#[trigger] images@[i]).content@.len() == 0
            ==> exists|k: int| 0 <= k < r@.len() && r@[k] == i,
        forall|k: int, l: int| 0 <= k < l < r@.len() ==> r@[k] < r@[l],
{
    let mut r: Vec<usize> = Vec::new();
    let mut i: usize = 0;
    while i < images.len()
        invariant
            0 <= i <= images@.len(),
            forall|k: int| 0 <= k < r@.len() ==> (#[trigger] r@[k] as int) < i
                && images@[r@[k] as int].content@.len() == 0,
            forall|j: int| 0 <= j < i && (#[trigger] images@[j]).content@.len() == 0
                ==> exists|k: int| 0 <= k < r@.len() && r@[k] == j,
            forall|k: int, l: int| 0 <= k < l < r@.len() ==> r@[k] < r@[l],
        decreases images@.len() - i,
    {
        let ghost prev = r@;
        if images[i].content.len() == 0 {
            r.push(i);
            proof {
                assert forall|k: int| 0 <= k < prev.len() implies r@[k] == prev[k] by {}
                assert(r@[prev.len() as int] == i);
            }
        }
        proof {
            assert forall|j: int| 0 <= j < i + 1 && (#[trigger] images@[j]).content@.len() == 0
                implies exists|k: int| 0 <= k < r@.len() && r@[k] == j by {
                if j < i {
                    let k = choose|k: int| 0 <= k < prev.len() && prev[k] == j;
                    assert(r@[k] == prev[k]);
                } else {
                    assert(r@[r@.len() - 1] == j);
                }
            }
        }
        i = i + 1;
    }
    r
}

/// Stores a downloaded image's content; a failed download leaves the image
/// as it was. No other image changes.
pub fn store_image(images: &mut Vec<ScImages>, i: usize, downloaded: Option<Vec<u8>>)
    requires
        i < old(images)@.len(),
    ensures
        final(images)@.len() == old(images)@.len(),
        forall|j: int| 0 <= j < old(images)@.len() && j != i ==> final(images)@[j] == old(images)@[j],
        final(images)@[i as int].old_name == old(images)@[i as int].old_name,
        downloaded matches Some(bytes) ==> final(images)@[i as int].content == bytes,
        downloaded is None ==> final(images)@[i as int] == old(images)@[i as int],
{
    match downloaded {
        Some(bytes) => {
            let mut image = images.remove(i);
            image.content = bytes;
            images.insert(i, image);
        },
        None => {},
    }
}

/// Stores the downloads of the images at positions `todo`, as
/// `images_to_fetch` gave them: `downloads[k]` is what came of image
/// `todo[k]`. Images that already had content, and those not in `todo`, stay
/// as they were; a failed download leaves its image as it was.
pub fn store_images(images: &mut Vec<ScImages>, todo: &Vec<usize>, downloads: Vec<Option<Vec<u8>>>)
    requires
        todo@.len() == downloads@.len(),
        forall|k: int| 0 <= k < todo@.len() ==> (#[trigger] todo@[k] as int) < old(images)@.len()
            && old(images)@[todo@[k] as int].content@.len() == 0,
        forall|k: int, l: int| 0 <= k < l < todo@.len() ==> todo@[k] < todo@[l],
    ensures
        final(images)@.len() == old(images)@.len(),
        forall|i: int| 0 <= i < old(images)@.len() ==> (#[trigger] final(images)@[i]).old_name == old(images)@[i].old_name,
        forall|i: int| 0 <= i < old(images)@.len() && (#[trigger] old(images)@[i]).content@.len() > 0
            ==> final(images)@[i] == old(images)@[i],
        forall|i: int| 0 <= i < old(images)@.len() && (forall|k: int| 0 <= k < todo@.len() ==> todo@[k] != i)
            ==> #[trigger] final(images)@[i] == old(images)@[i],
        forall|k: int| 0 <= k < todo@.len() ==> (#[trigger] downloads@[k] matches Some(b)
            ==> final(images)@[todo@[k] as int].content == b),
        forall|k: int| 0 <= k < todo@.len() ==> (#[trigger] downloads@[k] is None
            ==> final(images)@[todo@[k] as int] == old(images)@[todo@[k] as int]),
{
    let ghost orig = downloads@;
    let ghost start = images@;
    let mut downloads = downloads;
    let mut k: usize = downloads.len();
    while k > 0
        invariant
            k <= todo@.len(),
            todo@.len() == orig.len(),
            downloads@ == orig.subrange(0, k as int),
            images@.len() == start.len(),
            forall|k2: int| 0 <= k2 < todo@.len() ==> (#[trigger] todo@[k2] as int) < start.len(),
            forall|a: int, b: int| 0 <= a < b < todo@.len() ==> todo@[a] < todo@[b],
            forall|i: int| 0 <= i < start.len() ==> (#[trigger] images@[i]).old_name == start[i].old_name,
            forall|i: int| 0 <= i < start.len() && (forall|j: int| k <= j < todo@.len() ==> todo@[j] != i)
                ==> #[trigger] images@[i] == start[i],
            forall|j: int| k <= j < todo@.len() ==> (#[trigger] orig[j] matches Some(b)
                ==> images@[todo@[j] as int].content == b),
            forall|j: int| k <= j < todo@.len() ==> (#[trigger] orig[j] is None
                ==> images@[todo@[j] as int] == start[todo@[j] as int]),
        decreases k,
    {
        let d = downloads.pop().unwrap();
        k = k - 1;
        proof {
            assert(orig[k as int] == d);
        }
        let ghost before = images@;
        let i = todo[k];
        store_image(images, i, d);
        proof {
            assert forall|j: int| k < j < todo@.len() implies todo@[j] != i by {}
            assert forall|j: int| k <= j < todo@.len() && (#[trigger] orig[j] matches Some(b)) implies
                images@[todo@[j] as int].content == orig[j]->Some_0 by {
                if j > k {
                    assert(before[todo@[j] as int] == images@[todo@[j] as int]);
                }
            }
            assert forall|j: int| k <= j < todo@.len() && (#[trigger] orig[j] is None) implies
                images@[todo@[j] as int] == start[todo@[j] as int] by {
                if j > k {
                    assert(before[todo@[j] as int] == images@[todo@[j] as int]);
                }
            }
            assert forall|x: int| 0 <= x < start.len() && (forall|j: int| k <= j < todo@.len() ==> todo@[j] != x)
                implies #[trigger] images@[x] == start[x] by {
                assert(todo@[k as int] != x);
                assert(before[x] == images@[x]);
            }
        }
    }
    proof {
        assert forall|x: int| 0 <= x < start.len() && (#[trigger] start[x]).content@.len() > 0
            implies images@[x] == start[x] by {
            assert forall|j: int| 0 <= j < todo@.len() implies todo@[j] != x by {
                if todo@[j] == x {
                    assert(start[todo@[j] as int].content@.len() == 0);
                }
            }
        }
    }
}

} // verus!
