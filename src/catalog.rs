use vstd::prelude::*;
use vstd::string::*;
use crate::job::{FetchStep, JobSpec, GAME_APP_ID, TEST_SERVER_APP_ID, TEXTURE_DEPOT};

verus! {

/// One downloadable bundle of the catalog.
#[derive(Clone, Debug, PartialEq, Eq)]
pub struct CatalogEntry {
    pub name: String,
    pub year: String,
    /// Download size, or release date for a test server build.
    pub size: String,
    pub notes: String,
    pub steps: Vec<FetchStep>,
    /// Folder of post-download files for this build; empty for none.
    pub crack_folder: String,
}

/// The high resolution texture pack of one season.
#[derive(Clone, Debug, PartialEq, Eq)]
pub struct TextureEntry {
    pub name: String,
    pub year: String,
    pub manifest: String,
}

/// The depot that holds the game's content.
pub const CONTENT_DEPOT: u64 = 377237;

/// The depot that holds the game's executables.
pub const BINARY_DEPOT: u64 = 377238;

/// The depot that holds the game's shared files.
pub const SHARED_DEPOT: u64 = 359551;

/// The depot of the test server builds.
pub const TEST_SERVER_DEPOT: u64 = 623991;

fn step(depot: u64, manifest: &str) -> (r: FetchStep)
    ensures
        r.depot == depot,
        r.manifest@ == manifest@,
{
    FetchStep { depot, manifest: String::from_str(manifest) }
}

fn season(
    name: &str,
    year: &str,
    size: &str,
    notes: &str,
    content: &str,
    binary: &str,
    shared: &str,
    crack_folder: &str,
) -> (r: CatalogEntry)
    ensures
        r.name@ == name@,
        r.year@ == year@,
        r.size@ == size@,
        r.notes@ == notes@,
        r.steps@.len() == 3,
        r.steps@[0].depot == CONTENT_DEPOT,
        r.steps@[1].depot == BINARY_DEPOT,
        r.steps@[2].depot == SHARED_DEPOT,
        r.steps@[0].manifest@ == content@,
        r.steps@[1].manifest@ == binary@,
        r.steps@[2].manifest@ == shared@,
        r.crack_folder@ == crack_folder@,
{
    CatalogEntry {
        name: String::from_str(name),
        year: String::from_str(year),
        size: String::from_str(size),
        notes: String::from_str(notes),
        steps: vec![step(CONTENT_DEPOT, content), step(BINARY_DEPOT, binary), step(SHARED_DEPOT, shared)],
        crack_folder: String::from_str(crack_folder),
    }
}

fn test_server(name: &str, year: &str, date: &str, manifest: &str, crack_folder: &str) -> (r: CatalogEntry)
    ensures
        r.name@ == name@,
        r.year@ == year@,
        r.size@ == date@,
        r.notes@.len() == 0,
        r.steps@.len() == 1,
        r.steps@[0].depot == TEST_SERVER_DEPOT,
        r.steps@[0].manifest@ == manifest@,
        r.crack_folder@ == crack_folder@,
{
    CatalogEntry {
        name: String::from_str(name),
        year: String::from_str(year),
        size: String::from_str(date),
        notes: String::new(),
        steps: vec![step(TEST_SERVER_DEPOT, manifest)],
        crack_folder: String::from_str(crack_folder),
    }
}

fn texture(name: &str, year: &str, manifest: &str) -> (r: TextureEntry)
    ensures
        r.name@ == name@,
        r.year@ == year@,
        r.manifest@ == manifest@,
{
    TextureEntry { name: String::from_str(name), year: String::from_str(year), manifest: String::from_str(manifest) }
}

/// Whether `e` is the season with these fields, fetched from the content, binary and shared
/// depots at the three manifests given.
pub open spec fn is_season(
    e: CatalogEntry,
    name: Seq<char>,
    year: Seq<char>,
    size: Seq<char>,
    notes: Seq<char>,
    content: Seq<char>,
    binary: Seq<char>,
    shared: Seq<char>,
    crack_folder: Seq<char>,
) -> bool {
    &&& e.name@ == name
    &&& e.year@ == year
    &&& e.size@ == size
    &&& e.notes@ == notes
    &&& e.steps@.len() == 3
    &&& e.steps@[0].depot == CONTENT_DEPOT
    &&& e.steps@[1].depot == BINARY_DEPOT
    &&& e.steps@[2].depot == SHARED_DEPOT
    &&& e.steps@[0].manifest@ == content
    &&& e.steps@[1].manifest@ == binary
    &&& e.steps@[2].manifest@ == shared
    &&& e.crack_folder@ == crack_folder
}

/// Whether `e` is the test server build with these fields, one step on the test server depot.
pub open spec fn is_test_server(
    e: CatalogEntry,
    name: Seq<char>,
    year: Seq<char>,
    date: Seq<char>,
    manifest: Seq<char>,
    crack_folder: Seq<char>,
) -> bool {
    &&& e.name@ == name
    &&& e.year@ == year
    &&& e.size@ == date
    &&& e.notes@.len() == 0
    &&& e.steps@.len() == 1
    &&& e.steps@[0].depot == TEST_SERVER_DEPOT
    &&& e.steps@[0].manifest@ == manifest
    &&& e.crack_folder@ == crack_folder
}

/// Whether `t` is the texture pack with these fields.
pub open spec fn is_texture(t: TextureEntry, name: Seq<char>, year: Seq<char>, manifest: Seq<char>) -> bool {
    &&& t.name@ == name
    &&& t.year@ == year
    &&& t.manifest@ == manifest
}

pub const SEASON_COUNT: usize = 39;

pub const TEST_SERVER_COUNT: usize = 6;

pub const TEXTURE_COUNT: usize = 19;

/// Whether `e` is row `i` of the season table, newest first.
pub open spec fn season_row(i: int, e: CatalogEntry) -> bool {
    if i == 0 {
        is_season(e, "Prep Phase"@, "Y10S1"@, "51.4 GB"@, "NO UNLOCKED OPERATORS"@, "8382986432868135995"@, "3364322644809414267"@, "2619322944995294928"@, "Y6S4-Y8SX"@)
    } else if i == 1 {
        is_season(e, "Collision Point"@, "Y9S4"@, "59.2 GB"@, "NO UNLOCKED OPERATORS"@, "9207916394092784817"@, "6303744364362141965"@, "3039751959139581613"@, "Y6S4-Y8SX"@)
    } else if i == 2 {
        is_season(e, "Twin Shells"@, "Y9S3"@, "59.2 GB"@, "NO UNLOCKED OPERATORS"@, "4296569502001540403"@, "3038245830342960035"@, "825321500774263546"@, "Y6S4-Y8SX"@)
    } else if i == 3 {
        is_season(e, "New Blood"@, "Y9S2"@, "xx.x GB"@, "NO UNLOCKED OPERATORS"@, "8160812118480939262"@, "2207285510020603118"@, "3303120421075579181"@, "Y6S4-Y8SX"@)
    } else if i == 4 {
        is_season(e, "Deadly Omen"@, "Y9S1"@, "xx.x GB"@, "NO UNLOCKED OPERATORS"@, "1959067516419454682"@, "1619182300337183882"@, "1140469899661941149"@, "Y6S4-Y8SX"@)
    } else if i == 5 {
        is_season(e, "Deep Freeze"@, "Y8S4"@, "52.9 GB"@, "NO UNLOCKED OPERATORS"@, "7646647065987620875"@, "8339919149418587132"@, "4957295777170965935"@, "Y6S4-Y8SX"@)
    } else if i == 6 {
        is_season(e, "Heavy Mettle"@, "Y8S3"@, "xx.x GB"@, "NO UNLOCKED OPERATORS"@, "2068160275622519212"@, "2579928666708989224"@, "3005637025719884427"@, "Y6S4-Y8SX"@)
    } else if i == 7 {
        is_season(e, "Dread Factor"@, "Y8S2"@, "xx.x GB"@, ""@, "3050554908913191669"@, "4293396692730784956"@, "1575870740329742681"@, "Y6S4-Y8SX"@)
    } else if i == 8 {
        is_season(e, "Commanding Force"@, "Y8S1"@, "xx.x GB"@, ""@, "3275824905781062648"@, "1252692309389076318"@, "5863062164463920572"@, "Y6S4-Y8SX"@)
    } else if i == 9 {
        is_season(e, "Solar Raid"@, "Y7S4"@, "xx.x GB"@, ""@, "4466027729495813039"@, "5107849703917033235"@, "1819898955518120444"@, "Y6S4-Y8SX"@)
    } else if i == 10 {
        is_season(e, "Brutal Swarm"@, "Y7S3"@, "xx.x GB"@, ""@, "6425223567680952075"@, "4623590620762156001"@, "5906302942203575464"@, "Y6S4-Y8SX"@)
    } else if i == 11 {
        is_season(e, "Vector Glare"@, "Y7S2"@, "xx.x GB"@, ""@, "1363132201391540345"@, "4500117484519539380"@, "133280937611742404"@, "Y6S4-Y8SX"@)
    } else if i == 12 {
        is_season(e, "Demon Veil"@, "Y7S1"@, "xx.x GB"@, ""@, "8323869632165751287"@, "1970003626423861715"@, "2178080523228113690"@, "Y6S4-Y8SX"@)
    } else if i == 13 {
        is_season(e, "High Calibre"@, "Y6S4"@, "xx.x GB"@, ""@, "2637055726475611418"@, "2074678920289758165"@, "8627214406801860013"@, "Y6S4-Y8SX"@)
    } else if i == 14 {
        is_season(e, "Crystal Guard"@, "Y6S3"@, "xx.x GB"@, ""@, "4859695099882698284"@, "5161489294178683219"@, "6526531850721822265"@, "Y6S3"@)
    } else if i == 15 {
        is_season(e, "North Star"@, "Y6S2"@, "xx.x GB"@, ""@, "8733653062998518164"@, "6767916709017546201"@, "809542866761090243"@, "Y1SX-Y6S2"@)
    } else if i == 16 {
        is_season(e, "Crimson Heist"@, "Y6S1"@, "xx.x GB"@, ""@, "7890853311380514304"@, "6130917224459224462"@, "7485515457663576274"@, "Y1SX-Y6S2"@)
    } else if i == 17 {
        is_season(e, "Neon Dawn"@, "Y5S4"@, "xx.x GB"@, "Road To S.I. 2021"@, "4713320084981112320"@, "3560446343418579092"@, "3711873929777458413"@, "Y1SX-Y6S2"@)
    } else if i == 18 {
        is_season(e, "Neon Dawn (HM)"@, "Y5S4"@, "xx.x GB"@, "SUPPORTS HEATED METAL"@, "3390446325154338855"@, "3175150742361965235"@, "6947060999143280245"@, "Y1SX-Y6S2"@)
    } else if i == 19 {
        is_season(e, "Shadow Legacy"@, "Y5S3"@, "88.0 GB"@, ""@, "85893637567200342"@, "4020038723910014041"@, "3089981610366186823"@, "Y1SX-Y6S2"@)
    } else if i == 20 {
        is_season(e, "Steel Wave"@, "Y5S2"@, "81.3 GB"@, ""@, "4367817844736324940"@, "5838065097101371940"@, "893971391196952070"@, "Y1SX-Y6S2"@)
    } else if i == 21 {
        is_season(e, "Void Edge"@, "Y5S1"@, "74.3 GB"@, ""@, "4736360397583523381"@, "2583838033617047180"@, "6296533808765702678"@, "Y1SX-Y6S2"@)
    } else if i == 22 {
        is_season(e, "Shifting Tides"@, "Y4S4"@, "75.2 GB"@, ""@, "299124516841461614"@, "510172308722680354"@, "1842268638395240106"@, "Y1SX-Y6S2"@)
    } else if i == 23 {
        is_season(e, "Ember Rise"@, "Y4S3"@, "69.6 GB"@, "Doktor's Curse + Money Heist Event"@, "3546781236735558235"@, "684480090862996679"@, "7869081741739849703"@, "Y1SX-Y6S2"@)
    } else if i == 24 {
        is_season(e, "Phantom Sight"@, "Y4S2"@, "67.1 GB"@, "Showdown Event"@, "693082837425613508"@, "3326664059403997209"@, "5408324128694463720"@, "Y1SX-Y6S2"@)
    } else if i == 25 {
        is_season(e, "Burnt Horizon"@, "Y4S1"@, "59.7 GB"@, "Rainbow Is Magic Event"@, "8356277316976403078"@, "3777349673527123995"@, "5935578581006804383"@, "Y1SX-Y6S2"@)
    } else if i == 26 {
        is_season(e, "Wind Bastion"@, "Y3S4"@, "76.9 GB"@, ""@, "6502258854032233436"@, "3144556314994867170"@, "7659555540733025386"@, "Y1SX-Y6S2"@)
    } else if i == 27 {
        is_season(e, "Grim Sky"@, "Y3S3"@, "72.6 GB"@, "Mad House Event"@, "5562094852451837435"@, "3144556314994867170"@, "7781202564071310413"@, "Y1SX-Y6S2"@)
    } else if i == 28 {
        is_season(e, "Para Bellum"@, "Y3S2"@, "63.3 GB"@, ""@, "6507886921175556869"@, "7995779530685147208"@, "8765715607275074515"@, "Y1SX-Y6S2"@)
    } else if i == 29 {
        is_season(e, "Chimera"@, "Y3S1"@, "58.8 GB"@, "Outbreak Event"@, "5071357104726974256"@, "4768963659370299631"@, "4701787239566783972"@, "Y1SX-Y6S2"@)
    } else if i == 30 {
        is_season(e, "White Noise"@, "Y2S4"@, "48.7 GB"@, ""@, "8748734086032257441"@, "8421028160473337894"@, "4221297486420648079"@, "Y1SX-Y6S2"@)
    } else if i == 31 {
        is_season(e, "Blood Orchid"@, "Y2S3"@, "34.3 GB"@, ""@, "6708129824495912434"@, "4662662335520989204"@, "1613631671988840841"@, "Y1SX-Y6S2"@)
    } else if i == 32 {
        is_season(e, "Health"@, "Y2S2"@, "34.0 GB"@, ""@, "5875987479498297665"@, "8542242518901049325"@, "708773000306432190"@, "Y1SX-Y6S2"@)
    } else if i == 33 {
        is_season(e, "Velvet Shell"@, "Y2S1"@, "33.2 GB"@, ""@, "2248734317261478192"@, "2687181326074258760"@, "8006071763917433748"@, "Y1SX-Y6S2"@)
    } else if i == 34 {
        is_season(e, "Red Crow"@, "Y1S4"@, "28.5 GB"@, ""@, "3576607363557872807"@, "912564683190696342"@, "8569920171217002292"@, "Y1SX-Y6S2"@)
    } else if i == 35 {
        is_season(e, "Skull Rain"@, "Y1S3"@, "25.1 GB"@, ""@, "5819137024728546741"@, "2956768406107766016"@, "5851804596427790505"@, "Y1SX-Y6S2"@)
    } else if i == 36 {
        is_season(e, "Dust Line"@, "Y1S2"@, "20.9 GB"@, ""@, "2303064029242396590"@, "3040224537841664111"@, "2206497318678061176"@, "Y1SX-Y6S2"@)
    } else if i == 37 {
        is_season(e, "Black Ice"@, "Y1S1"@, "16.7 GB"@, ""@, "5188997148801516344"@, "5362991837480196824"@, "7932785808040895147"@, "Y1SX-Y6S2"@)
    } else if i == 38 {
        is_season(e, "Vanilla"@, "Y1S0"@, "14.2 GB"@, ""@, "8358812283631269928"@, "6835384933146381100"@, "3893422760579204530"@, "Y1SX-Y6S2"@)
    } else {
        false
    }
}

/// Whether `e` is row `i` of the test server table.
pub open spec fn test_server_row(i: int, e: CatalogEntry) -> bool {
    if i == 0 {
        is_test_server(e, "Daybreak TS"@, "Y10S2"@, "28/05/25"@, "5235883268902565724"@, "Y6S4-Y8SX"@)
    } else if i == 1 {
        is_test_server(e, "North Star TS"@, "Y6S2"@, "25/05/21"@, "6881719580573646381"@, "Y1SX-Y6S2"@)
    } else if i == 2 {
        is_test_server(e, "Crimson Heist TS"@, "Y6S1"@, "22/02/21"@, "7921295012062018715"@, "Y1SX-Y6S2"@)
    } else if i == 3 {
        is_test_server(e, "Ember Rise TS"@, "Y4S3"@, "10/09/19"@, "8284402568137361637"@, "Y1SX-Y6S2"@)
    } else if i == 4 {
        is_test_server(e, "Shadow Legacy TS"@, "Y5S3"@, "08/10/20"@, "8833805637802398440"@, "Y1SX-Y6S2"@)
    } else if i == 5 {
        is_test_server(e, "Steel Wave TS"@, "Y5S2"@, "02/06/20"@, "1268848856509013057"@, "Y1SX-Y6S2"@)
    } else {
        false
    }
}

/// Whether `t` is row `i` of the texture table, oldest first.
pub open spec fn texture_row(i: int, t: TextureEntry) -> bool {
    if i == 0 {
        is_texture(t, "Vanilla"@, "Y1S0"@, "8394183851197739981"@)
    } else if i == 1 {
        is_texture(t, "Black Ice"@, "Y1S1"@, "3756048967966286899"@)
    } else if i == 2 {
        is_texture(t, "Dust Line"@, "Y1S2"@, "1338949402410764888"@)
    } else if i == 3 {
        is_texture(t, "Skull Rain"@, "Y1S3"@, "3267970968757091405"@)
    } else if i == 4 {
        is_texture(t, "Red Crow"@, "Y1S4"@, "1825939060444887403"@)
    } else if i == 5 {
        is_texture(t, "Velvet Shell"@, "Y2S1"@, "3196596628759979362"@)
    } else if i == 6 {
        is_texture(t, "Health"@, "Y2S2"@, "7497579858536910279"@)
    } else if i == 7 {
        is_texture(t, "Blood Orchid"@, "Y2S3"@, "6420469519659049757"@)
    } else if i == 8 {
        is_texture(t, "White Noise"@, "Y2S4"@, "1118649577165385479"@)
    } else if i == 9 {
        is_texture(t, "Chimera"@, "Y3S1"@, "1668513364192382097"@)
    } else if i == 10 {
        is_texture(t, "Para Bellum"@, "Y3S2"@, "204186978012641075"@)
    } else if i == 11 {
        is_texture(t, "Grim Sky"@, "Y3S3"@, "6431001239225997495"@)
    } else if i == 12 {
        is_texture(t, "Wind Bastion"@, "Y3S4"@, "2243348760021617592"@)
    } else if i == 13 {
        is_texture(t, "Burnt Horizon"@, "Y4S1"@, "3462709886432904855"@)
    } else if i == 14 {
        is_texture(t, "Phantom Sight"@, "Y4S2"@, "4107080515154236795"@)
    } else if i == 15 {
        is_texture(t, "Ember Rise"@, "Y4S3"@, "8340682081776225833"@)
    } else if i == 16 {
        is_texture(t, "Shifting Tides"@, "Y4S4"@, "6048763664997452513"@)
    } else if i == 17 {
        is_texture(t, "Void Edge"@, "Y5S1"@, "2194493692563107142"@)
    } else if i == 18 {
        is_texture(t, "Steel Wave"@, "Y5S2"@, "3257522596542046976"@)
    } else {
        false
    }
}

fn season_at(i: usize) -> (r: CatalogEntry)
    requires
        i < SEASON_COUNT,
    ensures
        season_row(i as int, r),
        r.crack_folder@.len() > 0,
{
    proof {
        reveal_strlit("Y1SX-Y6S2");
        reveal_strlit("Y6S3");
        reveal_strlit("Y6S4-Y8SX");
    }
    if i == 0 {
        season("Prep Phase", "Y10S1", "51.4 GB", "NO UNLOCKED OPERATORS", "8382986432868135995", "3364322644809414267", "2619322944995294928", "Y6S4-Y8SX")
    } else if i == 1 {
        season("Collision Point", "Y9S4", "59.2 GB", "NO UNLOCKED OPERATORS", "9207916394092784817", "6303744364362141965", "3039751959139581613", "Y6S4-Y8SX")
    } else if i == 2 {
        season("Twin Shells", "Y9S3", "59.2 GB", "NO UNLOCKED OPERATORS", "4296569502001540403", "3038245830342960035", "825321500774263546", "Y6S4-Y8SX")
    } else if i == 3 {
        season("New Blood", "Y9S2", "xx.x GB", "NO UNLOCKED OPERATORS", "8160812118480939262", "2207285510020603118", "3303120421075579181", "Y6S4-Y8SX")
    } else if i == 4 {
        season("Deadly Omen", "Y9S1", "xx.x GB", "NO UNLOCKED OPERATORS", "1959067516419454682", "1619182300337183882", "1140469899661941149", "Y6S4-Y8SX")
    } else if i == 5 {
        season("Deep Freeze", "Y8S4", "52.9 GB", "NO UNLOCKED OPERATORS", "7646647065987620875", "8339919149418587132", "4957295777170965935", "Y6S4-Y8SX")
    } else if i == 6 {
        season("Heavy Mettle", "Y8S3", "xx.x GB", "NO UNLOCKED OPERATORS", "2068160275622519212", "2579928666708989224", "3005637025719884427", "Y6S4-Y8SX")
    } else if i == 7 {
        season("Dread Factor", "Y8S2", "xx.x GB", "", "3050554908913191669", "4293396692730784956", "1575870740329742681", "Y6S4-Y8SX")
    } else if i == 8 {
        season("Commanding Force", "Y8S1", "xx.x GB", "", "3275824905781062648", "1252692309389076318", "5863062164463920572", "Y6S4-Y8SX")
    } else if i == 9 {
        season("Solar Raid", "Y7S4", "xx.x GB", "", "4466027729495813039", "5107849703917033235", "1819898955518120444", "Y6S4-Y8SX")
    } else if i == 10 {
        season("Brutal Swarm", "Y7S3", "xx.x GB", "", "6425223567680952075", "4623590620762156001", "5906302942203575464", "Y6S4-Y8SX")
    } else if i == 11 {
        season("Vector Glare", "Y7S2", "xx.x GB", "", "1363132201391540345", "4500117484519539380", "133280937611742404", "Y6S4-Y8SX")
    } else if i == 12 {
        season("Demon Veil", "Y7S1", "xx.x GB", "", "8323869632165751287", "1970003626423861715", "2178080523228113690", "Y6S4-Y8SX")
    } else if i == 13 {
        season("High Calibre", "Y6S4", "xx.x GB", "", "2637055726475611418", "2074678920289758165", "8627214406801860013", "Y6S4-Y8SX")
    } else if i == 14 {
        season("Crystal Guard", "Y6S3", "xx.x GB", "", "4859695099882698284", "5161489294178683219", "6526531850721822265", "Y6S3")
    } else if i == 15 {
        season("North Star", "Y6S2", "xx.x GB", "", "8733653062998518164", "6767916709017546201", "809542866761090243", "Y1SX-Y6S2")
    } else if i == 16 {
        season("Crimson Heist", "Y6S1", "xx.x GB", "", "7890853311380514304", "6130917224459224462", "7485515457663576274", "Y1SX-Y6S2")
    } else if i == 17 {
        season("Neon Dawn", "Y5S4", "xx.x GB", "Road To S.I. 2021", "4713320084981112320", "3560446343418579092", "3711873929777458413", "Y1SX-Y6S2")
    } else if i == 18 {
        season("Neon Dawn (HM)", "Y5S4", "xx.x GB", "SUPPORTS HEATED METAL", "3390446325154338855", "3175150742361965235", "6947060999143280245", "Y1SX-Y6S2")
    } else if i == 19 {
        season("Shadow Legacy", "Y5S3", "88.0 GB", "", "85893637567200342", "4020038723910014041", "3089981610366186823", "Y1SX-Y6S2")
    } else if i == 20 {
        season("Steel Wave", "Y5S2", "81.3 GB", "", "4367817844736324940", "5838065097101371940", "893971391196952070", "Y1SX-Y6S2")
    } else if i == 21 {
        season("Void Edge", "Y5S1", "74.3 GB", "", "4736360397583523381", "2583838033617047180", "6296533808765702678", "Y1SX-Y6S2")
    } else if i == 22 {
        season("Shifting Tides", "Y4S4", "75.2 GB", "", "299124516841461614", "510172308722680354", "1842268638395240106", "Y1SX-Y6S2")
    } else if i == 23 {
        season("Ember Rise", "Y4S3", "69.6 GB", "Doktor's Curse + Money Heist Event", "3546781236735558235", "684480090862996679", "7869081741739849703", "Y1SX-Y6S2")
    } else if i == 24 {
        season("Phantom Sight", "Y4S2", "67.1 GB", "Showdown Event", "693082837425613508", "3326664059403997209", "5408324128694463720", "Y1SX-Y6S2")
    } else if i == 25 {
        season("Burnt Horizon", "Y4S1", "59.7 GB", "Rainbow Is Magic Event", "8356277316976403078", "3777349673527123995", "5935578581006804383", "Y1SX-Y6S2")
    } else if i == 26 {
        season("Wind Bastion", "Y3S4", "76.9 GB", "", "6502258854032233436", "3144556314994867170", "7659555540733025386", "Y1SX-Y6S2")
    } else if i == 27 {
        season("Grim Sky", "Y3S3", "72.6 GB", "Mad House Event", "5562094852451837435", "3144556314994867170", "7781202564071310413", "Y1SX-Y6S2")
    } else if i == 28 {
        season("Para Bellum", "Y3S2", "63.3 GB", "", "6507886921175556869", "7995779530685147208", "8765715607275074515", "Y1SX-Y6S2")
    } else if i == 29 {
        season("Chimera", "Y3S1", "58.8 GB", "Outbreak Event", "5071357104726974256", "4768963659370299631", "4701787239566783972", "Y1SX-Y6S2")
    } else if i == 30 {
        season("White Noise", "Y2S4", "48.7 GB", "", "8748734086032257441", "8421028160473337894", "4221297486420648079", "Y1SX-Y6S2")
    } else if i == 31 {
        season("Blood Orchid", "Y2S3", "34.3 GB", "", "6708129824495912434", "4662662335520989204", "1613631671988840841", "Y1SX-Y6S2")
    } else if i == 32 {
        season("Health", "Y2S2", "34.0 GB", "", "5875987479498297665", "8542242518901049325", "708773000306432190", "Y1SX-Y6S2")
    } else if i == 33 {
        season("Velvet Shell", "Y2S1", "33.2 GB", "", "2248734317261478192", "2687181326074258760", "8006071763917433748", "Y1SX-Y6S2")
    } else if i == 34 {
        season("Red Crow", "Y1S4", "28.5 GB", "", "3576607363557872807", "912564683190696342", "8569920171217002292", "Y1SX-Y6S2")
    } else if i == 35 {
        season("Skull Rain", "Y1S3", "25.1 GB", "", "5819137024728546741", "2956768406107766016", "5851804596427790505", "Y1SX-Y6S2")
    } else if i == 36 {
        season("Dust Line", "Y1S2", "20.9 GB", "", "2303064029242396590", "3040224537841664111", "2206497318678061176", "Y1SX-Y6S2")
    } else if i == 37 {
        season("Black Ice", "Y1S1", "16.7 GB", "", "5188997148801516344", "5362991837480196824", "7932785808040895147", "Y1SX-Y6S2")
    } else {
        season("Vanilla", "Y1S0", "14.2 GB", "", "8358812283631269928", "6835384933146381100", "3893422760579204530", "Y1SX-Y6S2")
    }
}

fn test_server_at(i: usize) -> (r: CatalogEntry)
    requires
        i < TEST_SERVER_COUNT,
    ensures
        test_server_row(i as int, r),
        r.crack_folder@.len() > 0,
{
    proof {
        reveal_strlit("Y1SX-Y6S2");
        reveal_strlit("Y6S3");
        reveal_strlit("Y6S4-Y8SX");
    }
    if i == 0 {
        test_server("Daybreak TS", "Y10S2", "28/05/25", "5235883268902565724", "Y6S4-Y8SX")
    } else if i == 1 {
        test_server("North Star TS", "Y6S2", "25/05/21", "6881719580573646381", "Y1SX-Y6S2")
    } else if i == 2 {
        test_server("Crimson Heist TS", "Y6S1", "22/02/21", "7921295012062018715", "Y1SX-Y6S2")
    } else if i == 3 {
        test_server("Ember Rise TS", "Y4S3", "10/09/19", "8284402568137361637", "Y1SX-Y6S2")
    } else if i == 4 {
        test_server("Shadow Legacy TS", "Y5S3", "08/10/20", "8833805637802398440", "Y1SX-Y6S2")
    } else {
        test_server("Steel Wave TS", "Y5S2", "02/06/20", "1268848856509013057", "Y1SX-Y6S2")
    }
}

fn texture_at(i: usize) -> (r: TextureEntry)
    requires
        i < TEXTURE_COUNT,
    ensures
        texture_row(i as int, r),
{
    if i == 0 {
        texture("Vanilla", "Y1S0", "8394183851197739981")
    } else if i == 1 {
        texture("Black Ice", "Y1S1", "3756048967966286899")
    } else if i == 2 {
        texture("Dust Line", "Y1S2", "1338949402410764888")
    } else if i == 3 {
        texture("Skull Rain", "Y1S3", "3267970968757091405")
    } else if i == 4 {
        texture("Red Crow", "Y1S4", "1825939060444887403")
    } else if i == 5 {
        texture("Velvet Shell", "Y2S1", "3196596628759979362")
    } else if i == 6 {
        texture("Health", "Y2S2", "7497579858536910279")
    } else if i == 7 {
        texture("Blood Orchid", "Y2S3", "6420469519659049757")
    } else if i == 8 {
        texture("White Noise", "Y2S4", "1118649577165385479")
    } else if i == 9 {
        texture("Chimera", "Y3S1", "1668513364192382097")
    } else if i == 10 {
        texture("Para Bellum", "Y3S2", "204186978012641075")
    } else if i == 11 {
        texture("Grim Sky", "Y3S3", "6431001239225997495")
    } else if i == 12 {
        texture("Wind Bastion", "Y3S4", "2243348760021617592")
    } else if i == 13 {
        texture("Burnt Horizon", "Y4S1", "3462709886432904855")
    } else if i == 14 {
        texture("Phantom Sight", "Y4S2", "4107080515154236795")
    } else if i == 15 {
        texture("Ember Rise", "Y4S3", "8340682081776225833")
    } else if i == 16 {
        texture("Shifting Tides", "Y4S4", "6048763664997452513")
    } else if i == 17 {
        texture("Void Edge", "Y5S1", "2194493692563107142")
    } else {
        texture("Steel Wave", "Y5S2", "3257522596542046976")
    }
}

/// The game's seasons, newest first, each fetched as its content, binary and shared
/// depots and each with post-download files.
pub fn seasons() -> (r: Vec<CatalogEntry>)
    ensures
        r@.len() == SEASON_COUNT,
        forall|i: int| 0 <= i < r@.len() ==> season_row(i, #[trigger] r@[i]),
        forall|i: int| 0 <= i < r@.len() ==> (#[trigger] r@[i]).crack_folder@.len() > 0,
{
    let mut v: Vec<CatalogEntry> = Vec::new();
    let mut i: usize = 0;
    while i < SEASON_COUNT
        invariant
            i <= SEASON_COUNT,
            v@.len() == i,
            forall|j: int| 0 <= j < i ==> season_row(j, #[trigger] v@[j]),
            forall|j: int| 0 <= j < i ==> (#[trigger] v@[j]).crack_folder@.len() > 0,
        decreases SEASON_COUNT - i,
    {
        v.push(season_at(i));
        i = i + 1;
    }
    v
}

/// The test server builds, each a single depot with post-download files.
pub fn test_servers() -> (r: Vec<CatalogEntry>)
    ensures
        r@.len() == TEST_SERVER_COUNT,
        forall|i: int| 0 <= i < r@.len() ==> test_server_row(i, #[trigger] r@[i]),
        forall|i: int| 0 <= i < r@.len() ==> (#[trigger] r@[i]).crack_folder@.len() > 0,
{
    let mut v: Vec<CatalogEntry> = Vec::new();
    let mut i: usize = 0;
    while i < TEST_SERVER_COUNT
        invariant
            i <= TEST_SERVER_COUNT,
            v@.len() == i,
            forall|j: int| 0 <= j < i ==> test_server_row(j, #[trigger] v@[j]),
            forall|j: int| 0 <= j < i ==> (#[trigger] v@[j]).crack_folder@.len() > 0,
        decreases TEST_SERVER_COUNT - i,
    {
        v.push(test_server_at(i));
        i = i + 1;
    }
    v
}

/// The seasons that have a high resolution texture pack, oldest first.
pub fn textures() -> (r: Vec<TextureEntry>)
    ensures
        r@.len() == TEXTURE_COUNT,
        forall|i: int| 0 <= i < r@.len() ==> texture_row(i, #[trigger] r@[i]),
{
    let mut v: Vec<TextureEntry> = Vec::new();
    let mut i: usize = 0;
    while i < TEXTURE_COUNT
        invariant
            i <= TEXTURE_COUNT,
            v@.len() == i,
            forall|j: int| 0 <= j < i ==> texture_row(j, #[trigger] v@[j]),
        decreases TEXTURE_COUNT - i,
    {
        v.push(texture_at(i));
        i = i + 1;
    }
    v
}

/// Whether `j` is the job that downloads `entry` for the given account: the entry's name,
/// year, steps and post-download folder, from the test server application or the game's.
pub open spec fn is_season_job(
    j: JobSpec,
    entry: CatalogEntry,
    test_server: bool,
    username: Seq<char>,
    password: Seq<char>,
    max_downloads: u64,
) -> bool {
    &&& j.name == entry.name
    &&& j.source == entry.name
    &&& j.year == entry.year
    &&& j.app_id == (if test_server { TEST_SERVER_APP_ID } else { GAME_APP_ID })
    &&& j.steps@ == entry.steps@
    &&& j.crack_folder == entry.crack_folder
    &&& j.username@ == username
    &&& j.password@ == password
    &&& j.max_downloads == max_downloads
    &&& !j.textures
}

/// The job name of a texture pack: the season's name followed by " 4K Textures".
pub open spec fn texture_job_name(name: Seq<char>) -> Seq<char> {
    name + seq![' ', '4', 'K', ' ', 'T', 'e', 'x', 't', 'u', 'r', 'e', 's']
}

/// Whether `j` is the job that downloads texture pack `t` for the given account: a single
/// step on the texture depot of the game, with no post-download copies.
pub open spec fn is_texture_job(
    j: JobSpec,
    t: TextureEntry,
    username: Seq<char>,
    password: Seq<char>,
    max_downloads: u64,
) -> bool {
    &&& j.name@ == texture_job_name(t.name@)
    &&& j.source == t.name
    &&& j.year == t.year
    &&& j.app_id == GAME_APP_ID
    &&& j.steps@.len() == 1
    &&& j.steps@[0].depot == TEXTURE_DEPOT
    &&& j.steps@[0].manifest == t.manifest
    &&& j.crack_folder@.len() == 0
    &&& j.username@ == username
    &&& j.password@ == password
    &&& j.max_downloads == max_downloads
    &&& j.textures
}

fn copy_steps(steps: &Vec<FetchStep>) -> (r: Vec<FetchStep>)
    ensures
        r@ == steps@,
{
    let mut r: Vec<FetchStep> = Vec::new();
    let mut i: usize = 0;
    while i < steps.len()
        invariant
            i <= steps@.len(),
            r@ == steps@.subrange(0, i as int),
        decreases steps@.len() - i,
    {
        r.push(FetchStep { depot: steps[i].depot, manifest: steps[i].manifest.clone() });
        assert(r@ =~= steps@.subrange(0, i as int + 1));
        i = i + 1;
    }
    assert(steps@.subrange(0, i as int) =~= steps@);
    r
}

/// The job that downloads `entry` for the given account.
pub fn season_job(
    entry: &CatalogEntry,
    test_server: bool,
    username: &str,
    password: &str,
    max_downloads: u64,
) -> (r: JobSpec)
    ensures
        is_season_job(r, *entry, test_server, username@, password@, max_downloads),
{
    JobSpec {
        name: entry.name.clone(),
        source: entry.name.clone(),
        year: entry.year.clone(),
        app_id: if test_server { TEST_SERVER_APP_ID } else { GAME_APP_ID },
        steps: copy_steps(&entry.steps),
        crack_folder: entry.crack_folder.clone(),
        username: String::from_str(username),
        password: String::from_str(password),
        max_downloads,
        textures: false,
    }
}

/// The job that downloads texture pack `t` for the given account.
pub fn texture_job(t: &TextureEntry, username: &str, password: &str, max_downloads: u64) -> (r: JobSpec)
    ensures
        is_texture_job(r, *t, username@, password@, max_downloads),
{
    let mut name = t.name.clone();
    proof {
        reveal_strlit(" 4K Textures");
        assert(" 4K Textures"@ =~= seq![' ', '4', 'K', ' ', 'T', 'e', 'x', 't', 'u', 'r', 'e', 's']);
    }
    name.append(" 4K Textures");
    JobSpec {
        name,
        source: t.name.clone(),
        year: t.year.clone(),
        app_id: GAME_APP_ID,
        steps: vec![FetchStep { depot: TEXTURE_DEPOT, manifest: t.manifest.clone() }],
        crack_folder: String::new(),
        username: String::from_str(username),
        password: String::from_str(password),
        max_downloads,
        textures: true,
    }
}

/// Where the first entry called `name` stands, if any does.
pub fn find_entry(entries: &Vec<CatalogEntry>, name: &str) -> (r: Option<usize>)
    ensures
        r matches Some(i) ==> {
            &&& i < entries@.len()
            &&& entries@[i as int].name@ == name@
            &&& forall|j: int| 0 <= j < i ==> (#[trigger] entries@[j]).name@ != name@
        },
        r is None ==> forall|j: int| 0 <= j < entries@.len() ==> (#[trigger] entries@[j]).name@ != name@,
{
    let wanted = String::from_str(name);
    let mut i: usize = 0;
    while i < entries.len()
        invariant
            i <= entries@.len(),
            wanted@ == name@,
            forall|j: int| 0 <= j < i ==> (#[trigger] entries@[j]).name@ != name@,
        decreases entries@.len() - i,
    {
        if entries[i].name == wanted {
            return Some(i);
        }
        i = i + 1;
    }
    None
}

/// Where the texture pack of the season called `name` stands, if there is one.
pub fn find_texture(entries: &Vec<TextureEntry>, name: &str) -> (r: Option<usize>)
    ensures
        r matches Some(i) ==> {
            &&& i < entries@.len()
            &&& entries@[i as int].name@ == name@
            &&& forall|j: int| 0 <= j < i ==> (#[trigger] entries@[j]).name@ != name@
        },
        r is None ==> forall|j: int| 0 <= j < entries@.len() ==> (#[trigger] entries@[j]).name@ != name@,
{
    let wanted = String::from_str(name);
    let mut i: usize = 0;
    while i < entries.len()
        invariant
            i <= entries@.len(),
            wanted@ == name@,
            forall|j: int| 0 <= j < i ==> (#[trigger] entries@[j]).name@ != name@,
        decreases entries@.len() - i,
    {
        if entries[i].name == wanted {
            return Some(i);
        }
        i = i + 1;
    }
    None
}

} // verus!
