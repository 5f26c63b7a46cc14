//! The closed enumeration of known strip sources and their static metadata:
//! the endpoint used for listing fetches, the public homepage, and a display
//! name, together with a fixed dense numbering of the sources that the
//! adapter cache is indexed by.

use vstd::prelude::*;

verus! {

/// Supported strip sites.
#[derive(Debug, Clone, Copy, Hash, PartialEq, Eq, Structural)]
#[non_exhaustive]
pub enum Sites {
    TurnoffUs,
    MonkeyUser,
    BonkersWorld,
    Goomics,
    Xkcd,
    DinosaurComics,
    Oglaf,
    CadComics,
    JoyOfTech,
    GoodTechThings,
    ThreeWordPhrase,
    ASofterWorld,
    ButterSafe,
    QuestionableContent,
    WorkChronicles,
    JSPowerHour,
    ButtercupFestival,
    Achewood,
    CatAndGirl,
    DieselSweeties1_0,
    DieselSweeties3_0,
}

impl Default for Sites {
    fn default() -> (r: Self)
        ensures
            r == Sites::TurnoffUs,
    {
        Sites::TurnoffUs
    }
}

/// How many sources the enumeration holds.
pub const SITE_COUNT: usize = 21;

/// A dense numbering of the sources, in declaration order.
pub open spec fn spec_site_index(s: Sites) -> int {
    match s {
        Sites::TurnoffUs => 0,
        Sites::MonkeyUser => 1,
        Sites::BonkersWorld => 2,
        Sites::Goomics => 3,
        Sites::Xkcd => 4,
        Sites::DinosaurComics => 5,
        Sites::Oglaf => 6,
        Sites::CadComics => 7,
        Sites::JoyOfTech => 8,
        Sites::GoodTechThings => 9,
        Sites::ThreeWordPhrase => 10,
        Sites::ASofterWorld => 11,
        Sites::ButterSafe => 12,
        Sites::QuestionableContent => 13,
        Sites::WorkChronicles => 14,
        Sites::JSPowerHour => 15,
        Sites::ButtercupFestival => 16,
        Sites::Achewood => 17,
        Sites::CatAndGirl => 18,
        Sites::DieselSweeties1_0 => 19,
        Sites::DieselSweeties3_0 => 20,
    }
}

/// The source standing at a given position of the numbering.
pub open spec fn spec_site_of_index(i: int) -> Sites {
    if i == 0 {
        Sites::TurnoffUs
    } else if i == 1 {
        Sites::MonkeyUser
    } else if i == 2 {
        Sites::BonkersWorld
    } else if i == 3 {
        Sites::Goomics
    } else if i == 4 {
        Sites::Xkcd
    } else if i == 5 {
        Sites::DinosaurComics
    } else if i == 6 {
        Sites::Oglaf
    } else if i == 7 {
        Sites::CadComics
    } else if i == 8 {
        Sites::JoyOfTech
    } else if i == 9 {
        Sites::GoodTechThings
    } else if i == 10 {
        Sites::ThreeWordPhrase
    } else if i == 11 {
        Sites::ASofterWorld
    } else if i == 12 {
        Sites::ButterSafe
    } else if i == 13 {
        Sites::QuestionableContent
    } else if i == 14 {
        Sites::WorkChronicles
    } else if i == 15 {
        Sites::JSPowerHour
    } else if i == 16 {
        Sites::ButtercupFestival
    } else if i == 17 {
        Sites::Achewood
    } else if i == 18 {
        Sites::CatAndGirl
    } else if i == 19 {
        Sites::DieselSweeties1_0
    } else {
        Sites::DieselSweeties3_0
    }
}

/// The numbering is a bijection between the sources and `0 .. SITE_COUNT`.
pub proof fn lemma_site_index_bijective()
    ensures
        forall|s: Sites| 0 <= #[trigger] spec_site_index(s) < SITE_COUNT,
        forall|s: Sites| spec_site_of_index(#[trigger] spec_site_index(s)) == s,
        forall|i: int|
            0 <= i < SITE_COUNT ==> spec_site_index(#[trigger] spec_site_of_index(i)) == i,
{
}

impl Sites {
    /// The position of this source in the numbering, as an index.
    pub fn index(&self) -> (i: usize)
        ensures
            i == spec_site_index(*self),
            i < SITE_COUNT,
    {
        match self {
            Sites::TurnoffUs => 0,
            Sites::MonkeyUser => 1,
            Sites::BonkersWorld => 2,
            Sites::Goomics => 3,
            Sites::Xkcd => 4,
            Sites::DinosaurComics => 5,
            Sites::Oglaf => 6,
            Sites::CadComics => 7,
            Sites::JoyOfTech => 8,
            Sites::GoodTechThings => 9,
            Sites::ThreeWordPhrase => 10,
            Sites::ASofterWorld => 11,
            Sites::ButterSafe => 12,
            Sites::QuestionableContent => 13,
            Sites::WorkChronicles => 14,
            Sites::JSPowerHour => 15,
            Sites::ButtercupFestival => 16,
            Sites::Achewood => 17,
            Sites::CatAndGirl => 18,
            Sites::DieselSweeties1_0 => 19,
            Sites::DieselSweeties3_0 => 20,
        }
    }

    /// Every source once, in declaration order.
    pub fn all() -> (r: Vec<Sites>)
        ensures
            r@.len() == SITE_COUNT,
            forall|i: int| 0 <= i < SITE_COUNT ==> r@[i] == spec_site_of_index(i),
    {
        let mut v: Vec<Sites> = Vec::new();
        v.push(Sites::TurnoffUs);
        v.push(Sites::MonkeyUser);
        v.push(Sites::BonkersWorld);
        v.push(Sites::Goomics);
        v.push(Sites::Xkcd);
        v.push(Sites::DinosaurComics);
        v.push(Sites::Oglaf);
        v.push(Sites::CadComics);
        v.push(Sites::JoyOfTech);
        v.push(Sites::GoodTechThings);
        v.push(Sites::ThreeWordPhrase);
        v.push(Sites::ASofterWorld);
        v.push(Sites::ButterSafe);
        v.push(Sites::QuestionableContent);
        v.push(Sites::WorkChronicles);
        v.push(Sites::JSPowerHour);
        v.push(Sites::ButtercupFestival);
        v.push(Sites::Achewood);
        v.push(Sites::CatAndGirl);
        v.push(Sites::DieselSweeties1_0);
        v.push(Sites::DieselSweeties3_0);
        v
    }

    /// The name shown for this source in a chooser.
    pub fn display_name(&self) -> (r: &str)
        ensures
            r@ == spec_display_name(*self),
    {
        match self {
            Sites::TurnoffUs => "{turnoff.us}",
            Sites::MonkeyUser => "MonkeyUser",
            Sites::BonkersWorld => "Bonkers Worls",
            Sites::Goomics => "Goomics",
            Sites::Xkcd => "xkcd",
            Sites::DinosaurComics => "Dinosaur Comics",
            Sites::Oglaf => "Oglaf [NSFW]",
            Sites::CadComics => "CTRL+ALT+DEL",
            Sites::JoyOfTech => "The Joy of Tech",
            Sites::GoodTechThings => "Good Tech Things",
            Sites::ThreeWordPhrase => "Three Word Phrase",
            Sites::ASofterWorld => "a softer world",
            Sites::ButterSafe => "BUTTERSAFE",
            Sites::QuestionableContent => "Questionable Content",
            Sites::WorkChronicles => "Work Chronicles",
            Sites::JSPowerHour => "Junior Scientist Power Hour",
            Sites::ButtercupFestival => "Buttercup Festival",
            Sites::Achewood => "achewood",
            Sites::CatAndGirl => "Cat and Girl",
            Sites::DieselSweeties1_0 => "Diesel Sweeties #1.0",
            Sites::DieselSweeties3_0 => "Diesel Sweeties #3.0",
        }
    }
}

/// The name shown for a source in a chooser.
pub open spec fn spec_display_name(s: Sites) -> Seq<char> {
    match s {
        Sites::TurnoffUs => "{turnoff.us}"@,
        Sites::MonkeyUser => "MonkeyUser"@,
        Sites::BonkersWorld => "Bonkers Worls"@,
        Sites::Goomics => "Goomics"@,
        Sites::Xkcd => "xkcd"@,
        Sites::DinosaurComics => "Dinosaur Comics"@,
        Sites::Oglaf => "Oglaf [NSFW]"@,
        Sites::CadComics => "CTRL+ALT+DEL"@,
        Sites::JoyOfTech => "The Joy of Tech"@,
        Sites::GoodTechThings => "Good Tech Things"@,
        Sites::ThreeWordPhrase => "Three Word Phrase"@,
        Sites::ASofterWorld => "a softer world"@,
        Sites::ButterSafe => "BUTTERSAFE"@,
        Sites::QuestionableContent => "Questionable Content"@,
        Sites::WorkChronicles => "Work Chronicles"@,
        Sites::JSPowerHour => "Junior Scientist Power Hour"@,
        Sites::ButtercupFestival => "Buttercup Festival"@,
        Sites::Achewood => "achewood"@,
        Sites::CatAndGirl => "Cat and Girl"@,
        Sites::DieselSweeties1_0 => "Diesel Sweeties #1.0"@,
        Sites::DieselSweeties3_0 => "Diesel Sweeties #3.0"@,
    }
}

/// The endpoint a source's listing is fetched from.
pub open spec fn spec_fetch_url(s: Sites) -> Seq<char> {
    match s {
        Sites::TurnoffUs => "https://turnoff.us"@,
        Sites::MonkeyUser => "https://www.monkeyuser.com/index.xml"@,
        Sites::BonkersWorld => "https://bonkersworld.net"@,
        Sites::Goomics => "https://goomics.net"@,
        Sites::Xkcd => "https://xkcd.com"@,
        Sites::DinosaurComics => "https://www.qwantz.com"@,
        Sites::Oglaf => "https://www.oglaf.com/feeds/rss"@,
        Sites::CadComics => "https://cad-comic.com/feed"@,
        Sites::JoyOfTech => "https://www.joyoftech.com/joyoftech/jotblog"@,
        Sites::GoodTechThings => "https://www.goodtechthings.com/rss/"@,
        Sites::ThreeWordPhrase => "https://threewordphrase.com/archive.htm"@,
        Sites::ASofterWorld => "https://www.asofterworld.com/archive.php"@,
        Sites::ButterSafe => "https://www.buttersafe.com/archive"@,
        Sites::QuestionableContent => "https://www.questionablecontent.net/QCRSS.xml"@,
        Sites::WorkChronicles => "https://workchronicles.substack.com"@,
        Sites::JSPowerHour => "https://www.jspowerhour.com/comics"@,
        Sites::ButtercupFestival => "https://www.buttercupfestival.com"@,
        Sites::Achewood => "https://achewood.com/archive_new.html"@,
        Sites::CatAndGirl => "https://catandgirl.com/archive"@,
        Sites::DieselSweeties1_0 => "https://www.dieselsweeties.com/archive"@,
        Sites::DieselSweeties3_0 => "https://www.dieselsweeties.com/ds-unifeed.xml"@,
    }
}

/// The homepage a source is presented under.
pub open spec fn spec_homepage(s: Sites) -> Seq<char> {
    match s {
        Sites::TurnoffUs => "turnoff.us"@,
        Sites::MonkeyUser => "monkeyuser.com"@,
        Sites::BonkersWorld => "bonkersworld.net"@,
        Sites::Goomics => "goomics.net"@,
        Sites::Xkcd => "xkcd.com"@,
        Sites::DinosaurComics => "qwantz.com"@,
        Sites::Oglaf => "oglaf.com"@,
        Sites::CadComics => "cad-comic.com"@,
        Sites::JoyOfTech => "joyoftech.com/joyoftech"@,
        Sites::GoodTechThings => "goodtechthings.com"@,
        Sites::ThreeWordPhrase => "threewordphrase.com"@,
        Sites::ASofterWorld => "asofterworld.com"@,
        Sites::ButterSafe => "buttersafe.com"@,
        Sites::QuestionableContent => "questionablecontent.net"@,
        Sites::WorkChronicles => "workchronicles.com"@,
        Sites::JSPowerHour => "jspowerhour.com"@,
        Sites::ButtercupFestival => "buttercupfestival.com"@,
        Sites::Achewood => "achewood.com"@,
        Sites::CatAndGirl => "catandgirl.com"@,
        Sites::DieselSweeties1_0 => "dieselsweeties.com"@,
        Sites::DieselSweeties3_0 => "dieselsweeties.com"@,
    }
}

/// The page a source's listing fetch reads: the fetch endpoint, for a few
/// sources with an archive path appended.
pub open spec fn spec_listing_url(s: Sites) -> Seq<char> {
    match s {
        Sites::TurnoffUs => spec_fetch_url(s) + "/all"@,
        Sites::DinosaurComics => spec_fetch_url(s) + "/archive.php"@,
        Sites::WorkChronicles => spec_fetch_url(s) + "/sitemap"@,
        _ => spec_fetch_url(s),
    }
}

/// The page a source's listing fetch reads.
pub fn listing_url(s: Sites) -> (r: String)
    ensures
        r@ == spec_listing_url(s),
{
    let base = Url::fetch_url(&s).to_owned();
    match s {
        Sites::TurnoffUs => {
            let mut r = base;
            r.append("/all");
            r
        },
        Sites::DinosaurComics => {
            let mut r = base;
            r.append("/archive.php");
            r
        },
        Sites::WorkChronicles => {
            let mut r = base;
            r.append("/sitemap");
            r
        },
        _ => base,
    }
}

/// Static endpoint metadata of a source.
pub trait Url {
    /// The endpoint the listing is fetched from.
    spec fn spec_fetch_url_of(&self) -> Seq<char>;

    /// The homepage the source is presented under.
    spec fn spec_homepage_of(&self) -> Seq<char>;

    fn fetch_url(&self) -> (r: &str)
        ensures
            r@ == self.spec_fetch_url_of(),
    ;

    fn homepage(&self) -> (r: &str)
        ensures
            r@ == self.spec_homepage_of(),
    ;
}

impl Url for Sites {
    open spec fn spec_fetch_url_of(&self) -> Seq<char> {
        spec_fetch_url(*self)
    }

    open spec fn spec_homepage_of(&self) -> Seq<char> {
        spec_homepage(*self)
    }

    fn fetch_url(&self) -> (r: &str) {
        match self {
            Sites::TurnoffUs => "https://turnoff.us",
            Sites::MonkeyUser => "https://www.monkeyuser.com/index.xml",
            Sites::BonkersWorld => "https://bonkersworld.net",
            Sites::Goomics => "https://goomics.net",
            Sites::Xkcd => "https://xkcd.com",
            Sites::DinosaurComics => "https://www.qwantz.com",
            Sites::Oglaf => "https://www.oglaf.com/feeds/rss",
            Sites::CadComics => "https://cad-comic.com/feed",
            Sites::JoyOfTech => "https://www.joyoftech.com/joyoftech/jotblog",
            Sites::GoodTechThings => "https://www.goodtechthings.com/rss/",
            Sites::ThreeWordPhrase => "https://threewordphrase.com/archive.htm",
            Sites::ASofterWorld => "https://www.asofterworld.com/archive.php",
            Sites::ButterSafe => "https://www.buttersafe.com/archive",
            Sites::QuestionableContent => "https://www.questionablecontent.net/QCRSS.xml",
            Sites::WorkChronicles => "https://workchronicles.substack.com",
            Sites::JSPowerHour => "https://www.jspowerhour.com/comics",
            Sites::ButtercupFestival => "https://www.buttercupfestival.com",
            Sites::Achewood => "https://achewood.com/archive_new.html",
            Sites::CatAndGirl => "https://catandgirl.com/archive",
            Sites::DieselSweeties1_0 => "https://www.dieselsweeties.com/archive",
            Sites::DieselSweeties3_0 => "https://www.dieselsweeties.com/ds-unifeed.xml",
        }
    }

    fn homepage(&self) -> (r: &str) {
        match self {
            Sites::TurnoffUs => "turnoff.us",
            Sites::MonkeyUser => "monkeyuser.com",
            Sites::BonkersWorld => "bonkersworld.net",
            Sites::Goomics => "goomics.net",
            Sites::Xkcd => "xkcd.com",
            Sites::DinosaurComics => "qwantz.com",
            Sites::Oglaf => "oglaf.com",
            Sites::CadComics => "cad-comic.com",
            Sites::JoyOfTech => "joyoftech.com/joyoftech",
            Sites::GoodTechThings => "goodtechthings.com",
            Sites::ThreeWordPhrase => "threewordphrase.com",
            Sites::ASofterWorld => "asofterworld.com",
            Sites::ButterSafe => "buttersafe.com",
            Sites::QuestionableContent => "questionablecontent.net",
            Sites::WorkChronicles => "workchronicles.com",
            Sites::JSPowerHour => "jspowerhour.com",
            Sites::ButtercupFestival => "buttercupfestival.com",
            Sites::Achewood => "achewood.com",
            Sites::CatAndGirl => "catandgirl.com",
            Sites::DieselSweeties1_0 => "dieselsweeties.com",
            Sites::DieselSweeties3_0 => "dieselsweeties.com",
        }
    }
}

} // verus!
