use vstd::prelude::*;

verus! {

/// Kind of a subject on the tracking service.
#[derive(Clone, Copy, Debug, PartialEq, Eq, Structural)]
pub enum SubjectType {
    Book,
    Anime,
    Music,
    Game,
    Real,
}

impl SubjectType {
    pub open spec fn code_spec(self) -> u8 {
        match self {
            SubjectType::Book => 1,
            SubjectType::Anime => 2,
            SubjectType::Music => 3,
            SubjectType::Game => 4,
            SubjectType::Real => 6,
        }
    }

    /// The service's numeric code of the kind.
    pub fn code(self) -> (r: u8)
        ensures
            r == self.code_spec(),
    {
        match self {
            SubjectType::Book => 1,
            SubjectType::Anime => 2,
            SubjectType::Music => 3,
            SubjectType::Game => 4,
            SubjectType::Real => 6,
        }
    }

    /// The kind with the service's numeric code `code`, if there is one.
    pub fn from_code(code: u8) -> (r: Option<SubjectType>)
        ensures
            r matches Some(t) ==> t.code_spec() == code,
            r is None <==> !(code == 1 || code == 2 || code == 3 || code == 4 || code == 6),
    {
        match code {
            1 => Some(SubjectType::Book),
            2 => Some(SubjectType::Anime),
            3 => Some(SubjectType::Music),
            4 => Some(SubjectType::Game),
            6 => Some(SubjectType::Real),
            _ => None,
        }
    }

    /// Label shown for the kind.
    pub fn disp(&self) -> (r: &'static str)
        ensures
            r@ == match *self {
                SubjectType::Anime => "动画骗"@,
                SubjectType::Book => "书籍"@,
                SubjectType::Real => "三次元"@,
                SubjectType::Game => "游戏"@,
                SubjectType::Music => "音乐"@,
            },
    {
        match self {
            SubjectType::Anime => "动画骗",
            SubjectType::Book => "书籍",
            SubjectType::Real => "三次元",
            SubjectType::Game => "游戏",
            SubjectType::Music => "音乐",
        }
    }
}

/// A subject as the service lists it.
#[derive(Clone, Debug)]
pub struct SubjectSmall {
    pub id: u64,
    pub air_date: String,
    pub air_weekday: u8,
    pub name: String,
    pub name_cn: String,
    pub summary: String,
    pub subject_type: SubjectType,
    pub url: String,
    pub vols_count: Option<u64>,
    pub eps_count: Option<u64>,
}

impl SubjectSmall {
    /// An identical copy.
    pub fn duplicate(&self) -> (r: SubjectSmall)
        ensures
            r == *self,
    {
        SubjectSmall {
            id: self.id,
            air_date: self.air_date.clone(),
            air_weekday: self.air_weekday,
            name: self.name.clone(),
            name_cn: self.name_cn.clone(),
            summary: self.summary.clone(),
            subject_type: self.subject_type,
            url: self.url.clone(),
            vols_count: self.vols_count,
            eps_count: self.eps_count,
        }
    }
}

/// Progress `cur` moved by `dist`, never below zero nor past a known `total`
/// (nor past the largest count).
pub open spec fn stepped(cur: u64, total: Option<u64>, dist: i64) -> int {
    let v = cur + dist;
    if v < 0 {
        0
    } else {
        match total {
            Some(e) => if e < v {
                e as int
            } else {
                v
            },
            None => if v > u64::MAX {
                u64::MAX as int
            } else {
                v
            },
        }
    }
}

fn step_count(cur: u64, total: Option<u64>, dist: i64) -> (r: u64)
    ensures
        r == stepped(cur, total, dist),
{
    let v: i128 = cur as i128 + dist as i128;
    if v < 0 {
        0
    } else {
        match total {
            Some(e) => if (e as i128) < v {
                e
            } else {
                v as u64
            },
            None => if v > u64::MAX as i128 {
                u64::MAX
            } else {
                v as u64
            },
        }
    }
}

/// An entry of the user's collection: a subject and how far the user got.
#[derive(Clone, Debug)]
pub struct CollectionEntry {
    pub ep_status: u64,
    pub vol_status: u64,
    /// Time of the last change, in seconds since the Unix epoch.
    pub lasttouch: i64,
    pub subject: SubjectSmall,
}

impl CollectionEntry {
    /// Episodes watched after moving by `dist`, kept between zero and the episode count.
    pub fn step_ep(&self, dist: i64) -> (r: u64)
        ensures
            r == stepped(self.ep_status, self.subject.eps_count, dist),
    {
        step_count(self.ep_status, self.subject.eps_count, dist)
    }

    /// Volumes read after moving by `dist`, kept between zero and the volume count.
    pub fn step_vol(&self, dist: i64) -> (r: u64)
        ensures
            r == stepped(self.vol_status, self.subject.vols_count, dist),
    {
        step_count(self.vol_status, self.subject.vols_count, dist)
    }

    /// An identical copy.
    pub fn duplicate(&self) -> (r: CollectionEntry)
        ensures
            r == *self,
    {
        CollectionEntry {
            ep_status: self.ep_status,
            vol_status: self.vol_status,
            lasttouch: self.lasttouch,
            subject: self.subject.duplicate(),
        }
    }
}

/// Where a subject stands in the user's collection.
#[derive(Clone, Copy, Debug, PartialEq, Eq, Structural)]
pub enum CollectionStatus {
    Wished,
    Done,
    Doing,
    OnHold,
    Dropped,
}

impl CollectionStatus {
    /// The service's name for the status.
    pub fn id(&self) -> (r: &'static str)
        ensures
            r@ == match *self {
                CollectionStatus::Wished => "wish"@,
                CollectionStatus::Done => "collect"@,
                CollectionStatus::Doing => "do"@,
                CollectionStatus::OnHold => "on_hold"@,
                CollectionStatus::Dropped => "dropped"@,
            },
    {
        match self {
            CollectionStatus::Wished => "wish",
            CollectionStatus::Done => "collect",
            CollectionStatus::Doing => "do",
            CollectionStatus::OnHold => "on_hold",
            CollectionStatus::Dropped => "dropped",
        }
    }

    /// Label shown for the status.
    pub fn disp(&self) -> (r: &'static str)
        ensures
            r@ == match *self {
                CollectionStatus::Wished => "打算做"@,
                CollectionStatus::Doing => "在做了"@,
                CollectionStatus::Done => "完成！"@,
                CollectionStatus::OnHold => "摸了"@,
                CollectionStatus::Dropped => "没得了"@,
            },
    {
        match self {
            CollectionStatus::Wished => "打算做",
            CollectionStatus::Doing => "在做了",
            CollectionStatus::Done => "完成！",
            CollectionStatus::OnHold => "摸了",
            CollectionStatus::Dropped => "没得了",
        }
    }

    pub open spec fn rotate_spec(self) -> CollectionStatus {
        match self {
            CollectionStatus::Wished => CollectionStatus::Doing,
            CollectionStatus::Doing => CollectionStatus::Done,
            CollectionStatus::Done => CollectionStatus::OnHold,
            CollectionStatus::OnHold => CollectionStatus::Dropped,
            CollectionStatus::Dropped => CollectionStatus::Wished,
        }
    }

    /// The next status in the editing cycle.
    pub fn rotate(&self) -> (r: CollectionStatus)
        ensures
            r == self.rotate_spec(),
    {
        match self {
            CollectionStatus::Wished => CollectionStatus::Doing,
            CollectionStatus::Doing => CollectionStatus::Done,
            CollectionStatus::Done => CollectionStatus::OnHold,
            CollectionStatus::OnHold => CollectionStatus::Dropped,
            CollectionStatus::Dropped => CollectionStatus::Wished,
        }
    }

    /// The status of a subject not yet collected.
    pub fn default() -> (r: CollectionStatus)
        ensures
            r == CollectionStatus::Doing,
    {
        CollectionStatus::Doing
    }
}

/// The user's record of one subject.
#[derive(Clone, Debug)]
pub struct CollectionDetail {
    pub status: CollectionStatus,
    pub rating: u8,
    pub comment: String,
    pub tag: Vec<String>,
}

/// An identical copy of a list of strings.
pub fn copy_strings(v: &Vec<String>) -> (r: Vec<String>)
    ensures
        r@ == v@,
{
    let mut r: Vec<String> = Vec::new();
    let mut i: usize = 0;
    while i < v.len()
        invariant
            0 <= i <= v@.len(),
            r@ == v@.take(i as int),
        decreases v@.len() - i,
    {
        r.push(v[i].clone());
        i = i + 1;
        assert(r@ =~= v@.take(i as int));
    }
    assert(v@.take(v@.len() as int) =~= v@);
    r
}

impl CollectionDetail {
    /// The two records hold the same values.
    pub open spec fn same(&self, o: &CollectionDetail) -> bool {
        &&& self.status == o.status
        &&& self.rating == o.rating
        &&& self.comment == o.comment
        &&& self.tag@ == o.tag@
    }

    /// An identical copy.
    pub fn duplicate(&self) -> (r: CollectionDetail)
        ensures
            r.same(self),
    {
        CollectionDetail {
            status: self.status,
            rating: self.rating,
            comment: self.comment.clone(),
            tag: copy_strings(&self.tag),
        }
    }
}

} // verus!
