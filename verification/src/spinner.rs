//! Spinner styles and the categories the settings screen groups them in.
//!
//! Every style has a fixed position in the catalogue; categories are
//! consecutive runs of sixteen styles, so each style lives in exactly one
//! category.
use vstd::prelude::*;

verus! {

/// Number of spinner styles.
pub const SPINNER_STYLE_COUNT: usize = 80;

/// Number of styles in each category.
pub const STYLES_PER_CATEGORY: usize = 16;

/// Number of spinner categories.
pub const SPINNER_CATEGORY_COUNT: usize = 5;

/// An animated spinner used for busy agents.
#[derive(Debug, Clone, Copy, PartialEq, Eq, Structural)]
pub enum SpinnerStyle {
    Dots,
    DotsFull,
    DotsCorner,
    Arc,
    Circle,
    CircleQuarters,
    CircleHalves,
    SquareCorners,
    Triangle,
    Star,
    Star2,
    Arrow,
    Arrow3,
    Bounce,
    BoxBounce,
    Pipe,
    Noise,
    Aesthetic,
    GrowVertical,
    GrowHorizontal,
    Point,
    BetaWave,
    Layer,
    Liquid,
    Crystal,
    Galaxy,
    Vortex,
    Toggle,
    Flip,
    Sandwich,
    BouncingBar,
    BouncingBall,
    Pong,
    Shark,
    Fish,
    Binary,
    DotsCircle,
    Sand,
    Dots8Bit,
    Moon,
    Clock,
    Earth,
    Weather,
    Hearts,
    Balloon,
    Grenade,
    FingerDance,
    FistBump,
    Smiley,
    Monkey,
    Speaker,
    Runner,
    SoccerHeader,
    Mindblown,
    OrangePulse,
    BluePulse,
    OrangeBluePulse,
    TimeTravel,
    Christmas,
    Flame,
    Pizza,
    Dizzy,
    Ninja,
    Magic,
    Robot,
    Boom,
    Unicorn,
    Bee,
    Dragon,
    GhostSpinner,
    Pumpkin,
    Wizard,
    Crown,
    Diamond,
    Fire,
    Rocket,
    StarSpin,
    Confetti,
    Cthulhu,
    DwarfFortress,
}

/// Position of a style in the catalogue.
pub open spec fn style_index(s: SpinnerStyle) -> int {
    match s {
        SpinnerStyle::Dots => 0,
        SpinnerStyle::DotsFull => 1,
        SpinnerStyle::DotsCorner => 2,
        SpinnerStyle::Arc => 3,
        SpinnerStyle::Circle => 4,
        SpinnerStyle::CircleQuarters => 5,
        SpinnerStyle::CircleHalves => 6,
        SpinnerStyle::SquareCorners => 7,
        SpinnerStyle::Triangle => 8,
        SpinnerStyle::Star => 9,
        SpinnerStyle::Star2 => 10,
        SpinnerStyle::Arrow => 11,
        SpinnerStyle::Arrow3 => 12,
        SpinnerStyle::Bounce => 13,
        SpinnerStyle::BoxBounce => 14,
        SpinnerStyle::Pipe => 15,
        SpinnerStyle::Noise => 16,
        SpinnerStyle::Aesthetic => 17,
        SpinnerStyle::GrowVertical => 18,
        SpinnerStyle::GrowHorizontal => 19,
        SpinnerStyle::Point => 20,
        SpinnerStyle::BetaWave => 21,
        SpinnerStyle::Layer => 22,
        SpinnerStyle::Liquid => 23,
        SpinnerStyle::Crystal => 24,
        SpinnerStyle::Galaxy => 25,
        SpinnerStyle::Vortex => 26,
        SpinnerStyle::Toggle => 27,
        SpinnerStyle::Flip => 28,
        SpinnerStyle::Sandwich => 29,
        SpinnerStyle::BouncingBar => 30,
        SpinnerStyle::BouncingBall => 31,
        SpinnerStyle::Pong => 32,
        SpinnerStyle::Shark => 33,
        SpinnerStyle::Fish => 34,
        SpinnerStyle::Binary => 35,
        SpinnerStyle::DotsCircle => 36,
        SpinnerStyle::Sand => 37,
        SpinnerStyle::Dots8Bit => 38,
        SpinnerStyle::Moon => 39,
        SpinnerStyle::Clock => 40,
        SpinnerStyle::Earth => 41,
        SpinnerStyle::Weather => 42,
        SpinnerStyle::Hearts => 43,
        SpinnerStyle::Balloon => 44,
        SpinnerStyle::Grenade => 45,
        SpinnerStyle::FingerDance => 46,
        SpinnerStyle::FistBump => 47,
        SpinnerStyle::Smiley => 48,
        SpinnerStyle::Monkey => 49,
        SpinnerStyle::Speaker => 50,
        SpinnerStyle::Runner => 51,
        SpinnerStyle::SoccerHeader => 52,
        SpinnerStyle::Mindblown => 53,
        SpinnerStyle::OrangePulse => 54,
        SpinnerStyle::BluePulse => 55,
        SpinnerStyle::OrangeBluePulse => 56,
        SpinnerStyle::TimeTravel => 57,
        SpinnerStyle::Christmas => 58,
        SpinnerStyle::Flame => 59,
        SpinnerStyle::Pizza => 60,
        SpinnerStyle::Dizzy => 61,
        SpinnerStyle::Ninja => 62,
        SpinnerStyle::Magic => 63,
        SpinnerStyle::Robot => 64,
        SpinnerStyle::Boom => 65,
        SpinnerStyle::Unicorn => 66,
        SpinnerStyle::Bee => 67,
        SpinnerStyle::Dragon => 68,
        SpinnerStyle::GhostSpinner => 69,
        SpinnerStyle::Pumpkin => 70,
        SpinnerStyle::Wizard => 71,
        SpinnerStyle::Crown => 72,
        SpinnerStyle::Diamond => 73,
        SpinnerStyle::Fire => 74,
        SpinnerStyle::Rocket => 75,
        SpinnerStyle::StarSpin => 76,
        SpinnerStyle::Confetti => 77,
        SpinnerStyle::Cthulhu => 78,
        SpinnerStyle::DwarfFortress => 79,
    }
}

/// The style at a catalogue position (the last style beyond the end).
pub open spec fn style_at(i: int) -> SpinnerStyle {
    if i == 0 {
        SpinnerStyle::Dots
    } else if i == 1 {
        SpinnerStyle::DotsFull
    } else if i == 2 {
        SpinnerStyle::DotsCorner
    } else if i == 3 {
        SpinnerStyle::Arc
    } else if i == 4 {
        SpinnerStyle::Circle
    } else if i == 5 {
        SpinnerStyle::CircleQuarters
    } else if i == 6 {
        SpinnerStyle::CircleHalves
    } else if i == 7 {
        SpinnerStyle::SquareCorners
    } else if i == 8 {
        SpinnerStyle::Triangle
    } else if i == 9 {
        SpinnerStyle::Star
    } else if i == 10 {
        SpinnerStyle::Star2
    } else if i == 11 {
        SpinnerStyle::Arrow
    } else if i == 12 {
        SpinnerStyle::Arrow3
    } else if i == 13 {
        SpinnerStyle::Bounce
    } else if i == 14 {
        SpinnerStyle::BoxBounce
    } else if i == 15 {
        SpinnerStyle::Pipe
    } else if i == 16 {
        SpinnerStyle::Noise
    } else if i == 17 {
        SpinnerStyle::Aesthetic
    } else if i == 18 {
        SpinnerStyle::GrowVertical
    } else if i == 19 {
        SpinnerStyle::GrowHorizontal
    } else if i == 20 {
        SpinnerStyle::Point
    } else if i == 21 {
        SpinnerStyle::BetaWave
    } else if i == 22 {
        SpinnerStyle::Layer
    } else if i == 23 {
        SpinnerStyle::Liquid
    } else if i == 24 {
        SpinnerStyle::Crystal
    } else if i == 25 {
        SpinnerStyle::Galaxy
    } else if i == 26 {
        SpinnerStyle::Vortex
    } else if i == 27 {
        SpinnerStyle::Toggle
    } else if i == 28 {
        SpinnerStyle::Flip
    } else if i == 29 {
        SpinnerStyle::Sandwich
    } else if i == 30 {
        SpinnerStyle::BouncingBar
    } else if i == 31 {
        SpinnerStyle::BouncingBall
    } else if i == 32 {
        SpinnerStyle::Pong
    } else if i == 33 {
        SpinnerStyle::Shark
    } else if i == 34 {
        SpinnerStyle::Fish
    } else if i == 35 {
        SpinnerStyle::Binary
    } else if i == 36 {
        SpinnerStyle::DotsCircle
    } else if i == 37 {
        SpinnerStyle::Sand
    } else if i == 38 {
        SpinnerStyle::Dots8Bit
    } else if i == 39 {
        SpinnerStyle::Moon
    } else if i == 40 {
        SpinnerStyle::Clock
    } else if i == 41 {
        SpinnerStyle::Earth
    } else if i == 42 {
        SpinnerStyle::Weather
    } else if i == 43 {
        SpinnerStyle::Hearts
    } else if i == 44 {
        SpinnerStyle::Balloon
    } else if i == 45 {
        SpinnerStyle::Grenade
    } else if i == 46 {
        SpinnerStyle::FingerDance
    } else if i == 47 {
        SpinnerStyle::FistBump
    } else if i == 48 {
        SpinnerStyle::Smiley
    } else if i == 49 {
        SpinnerStyle::Monkey
    } else if i == 50 {
        SpinnerStyle::Speaker
    } else if i == 51 {
        SpinnerStyle::Runner
    } else if i == 52 {
        SpinnerStyle::SoccerHeader
    } else if i == 53 {
        SpinnerStyle::Mindblown
    } else if i == 54 {
        SpinnerStyle::OrangePulse
    } else if i == 55 {
        SpinnerStyle::BluePulse
    } else if i == 56 {
        SpinnerStyle::OrangeBluePulse
    } else if i == 57 {
        SpinnerStyle::TimeTravel
    } else if i == 58 {
        SpinnerStyle::Christmas
    } else if i == 59 {
        SpinnerStyle::Flame
    } else if i == 60 {
        SpinnerStyle::Pizza
    } else if i == 61 {
        SpinnerStyle::Dizzy
    } else if i == 62 {
        SpinnerStyle::Ninja
    } else if i == 63 {
        SpinnerStyle::Magic
    } else if i == 64 {
        SpinnerStyle::Robot
    } else if i == 65 {
        SpinnerStyle::Boom
    } else if i == 66 {
        SpinnerStyle::Unicorn
    } else if i == 67 {
        SpinnerStyle::Bee
    } else if i == 68 {
        SpinnerStyle::Dragon
    } else if i == 69 {
        SpinnerStyle::GhostSpinner
    } else if i == 70 {
        SpinnerStyle::Pumpkin
    } else if i == 71 {
        SpinnerStyle::Wizard
    } else if i == 72 {
        SpinnerStyle::Crown
    } else if i == 73 {
        SpinnerStyle::Diamond
    } else if i == 74 {
        SpinnerStyle::Fire
    } else if i == 75 {
        SpinnerStyle::Rocket
    } else if i == 76 {
        SpinnerStyle::StarSpin
    } else if i == 77 {
        SpinnerStyle::Confetti
    } else if i == 78 {
        SpinnerStyle::Cthulhu
    } else {
        SpinnerStyle::DwarfFortress
    }
}

/// The name a style has in the configuration file.
pub open spec fn config_name_spec(s: SpinnerStyle) -> Seq<char> {
    match s {
        SpinnerStyle::Dots => "dots"@,
        SpinnerStyle::DotsFull => "dots-full"@,
        SpinnerStyle::DotsCorner => "dots-corner"@,
        SpinnerStyle::Arc => "arc"@,
        SpinnerStyle::Circle => "circle"@,
        SpinnerStyle::CircleQuarters => "circle-quarters"@,
        SpinnerStyle::CircleHalves => "circle-halves"@,
        SpinnerStyle::SquareCorners => "square-corners"@,
        SpinnerStyle::Triangle => "triangle"@,
        SpinnerStyle::Star => "star"@,
        SpinnerStyle::Star2 => "star2"@,
        SpinnerStyle::Arrow => "arrow"@,
        SpinnerStyle::Arrow3 => "arrow3"@,
        SpinnerStyle::Bounce => "bounce"@,
        SpinnerStyle::BoxBounce => "box-bounce"@,
        SpinnerStyle::Pipe => "pipe"@,
        SpinnerStyle::Noise => "noise"@,
        SpinnerStyle::Aesthetic => "aesthetic"@,
        SpinnerStyle::GrowVertical => "grow-vertical"@,
        SpinnerStyle::GrowHorizontal => "grow-horizontal"@,
        SpinnerStyle::Point => "point"@,
        SpinnerStyle::BetaWave => "beta-wave"@,
        SpinnerStyle::Layer => "layer"@,
        SpinnerStyle::Liquid => "liquid"@,
        SpinnerStyle::Crystal => "crystal"@,
        SpinnerStyle::Galaxy => "galaxy"@,
        SpinnerStyle::Vortex => "vortex"@,
        SpinnerStyle::Toggle => "toggle"@,
        SpinnerStyle::Flip => "flip"@,
        SpinnerStyle::Sandwich => "sandwich"@,
        SpinnerStyle::BouncingBar => "bouncing-bar"@,
        SpinnerStyle::BouncingBall => "bouncing-ball"@,
        SpinnerStyle::Pong => "pong"@,
        SpinnerStyle::Shark => "shark"@,
        SpinnerStyle::Fish => "fish"@,
        SpinnerStyle::Binary => "binary"@,
        SpinnerStyle::DotsCircle => "dots-circle"@,
        SpinnerStyle::Sand => "sand"@,
        SpinnerStyle::Dots8Bit => "dots8-bit"@,
        SpinnerStyle::Moon => "moon"@,
        SpinnerStyle::Clock => "clock"@,
        SpinnerStyle::Earth => "earth"@,
        SpinnerStyle::Weather => "weather"@,
        SpinnerStyle::Hearts => "hearts"@,
        SpinnerStyle::Balloon => "balloon"@,
        SpinnerStyle::Grenade => "grenade"@,
        SpinnerStyle::FingerDance => "finger-dance"@,
        SpinnerStyle::FistBump => "fist-bump"@,
        SpinnerStyle::Smiley => "smiley"@,
        SpinnerStyle::Monkey => "monkey"@,
        SpinnerStyle::Speaker => "speaker"@,
        SpinnerStyle::Runner => "runner"@,
        SpinnerStyle::SoccerHeader => "soccer-header"@,
        SpinnerStyle::Mindblown => "mindblown"@,
        SpinnerStyle::OrangePulse => "orange-pulse"@,
        SpinnerStyle::BluePulse => "blue-pulse"@,
        SpinnerStyle::OrangeBluePulse => "orange-blue-pulse"@,
        SpinnerStyle::TimeTravel => "time-travel"@,
        SpinnerStyle::Christmas => "christmas"@,
        SpinnerStyle::Flame => "flame"@,
        SpinnerStyle::Pizza => "pizza"@,
        SpinnerStyle::Dizzy => "dizzy"@,
        SpinnerStyle::Ninja => "ninja"@,
        SpinnerStyle::Magic => "magic"@,
        SpinnerStyle::Robot => "robot"@,
        SpinnerStyle::Boom => "boom"@,
        SpinnerStyle::Unicorn => "unicorn"@,
        SpinnerStyle::Bee => "bee"@,
        SpinnerStyle::Dragon => "dragon"@,
        SpinnerStyle::GhostSpinner => "ghost"@,
        SpinnerStyle::Pumpkin => "pumpkin"@,
        SpinnerStyle::Wizard => "wizard"@,
        SpinnerStyle::Crown => "crown"@,
        SpinnerStyle::Diamond => "diamond"@,
        SpinnerStyle::Fire => "fire"@,
        SpinnerStyle::Rocket => "rocket"@,
        SpinnerStyle::StarSpin => "star-spin"@,
        SpinnerStyle::Confetti => "confetti"@,
        SpinnerStyle::Cthulhu => "cthulhu"@,
        SpinnerStyle::DwarfFortress => "dwarf-fortress"@,
    }
}

/// The label of a category (the first category's label beyond the end).
pub open spec fn category_label_spec(c: int) -> Seq<char> {
    if c == 0 {
        "classic"@
    } else if c == 1 {
        "motion"@
    } else if c == 2 {
        "play"@
    } else if c == 3 {
        "emoji"@
    } else if c == 4 {
        "fantasy"@
    } else {
        "classic"@
    }
}

/// The styles of category `c`, in display order.
pub open spec fn category_styles_spec(c: int) -> Seq<SpinnerStyle> {
    Seq::new(16, |j: int| style_at(16 * c + j))
}

/// Catalogue position and style are inverse to each other.
pub proof fn lemma_style_index_inverse(s: SpinnerStyle)
    ensures
        0 <= style_index(s) < 80,
        style_at(style_index(s)) == s,
{
}

/// Every position in the catalogue holds the style with that position.
pub proof fn lemma_style_at_inverse(i: int)
    requires
        0 <= i < 80,
    ensures
        style_index(style_at(i)) == i,
{
}

/// Each style belongs to exactly one category: the one its catalogue
/// position falls in.
pub proof fn law_style_in_one_category(s: SpinnerStyle, c: int)
    requires
        0 <= c < 5,
    ensures
        category_styles_spec(c).contains(s) <==> c == style_index(s) / 16,
{
    lemma_style_index_inverse(s);
    let k = style_index(s);
    if c == k / 16 {
        assert(category_styles_spec(c)[k % 16] == s);
    }
    if category_styles_spec(c).contains(s) {
        let j = choose|j: int| 0 <= j < category_styles_spec(c).len() && category_styles_spec(c)[j] == s;
        lemma_style_at_inverse(16 * c + j);
    }
}

impl SpinnerStyle {
    /// Position of this style in the catalogue.
    pub fn index(self) -> (r: usize)
        ensures
            r == style_index(self),
    {
        match self {
            SpinnerStyle::Dots => 0,
            SpinnerStyle::DotsFull => 1,
            SpinnerStyle::DotsCorner => 2,
            SpinnerStyle::Arc => 3,
            SpinnerStyle::Circle => 4,
            SpinnerStyle::CircleQuarters => 5,
            SpinnerStyle::CircleHalves => 6,
            SpinnerStyle::SquareCorners => 7,
            SpinnerStyle::Triangle => 8,
            SpinnerStyle::Star => 9,
            SpinnerStyle::Star2 => 10,
            SpinnerStyle::Arrow => 11,
            SpinnerStyle::Arrow3 => 12,
            SpinnerStyle::Bounce => 13,
            SpinnerStyle::BoxBounce => 14,
            SpinnerStyle::Pipe => 15,
            SpinnerStyle::Noise => 16,
            SpinnerStyle::Aesthetic => 17,
            SpinnerStyle::GrowVertical => 18,
            SpinnerStyle::GrowHorizontal => 19,
            SpinnerStyle::Point => 20,
            SpinnerStyle::BetaWave => 21,
            SpinnerStyle::Layer => 22,
            SpinnerStyle::Liquid => 23,
            SpinnerStyle::Crystal => 24,
            SpinnerStyle::Galaxy => 25,
            SpinnerStyle::Vortex => 26,
            SpinnerStyle::Toggle => 27,
            SpinnerStyle::Flip => 28,
            SpinnerStyle::Sandwich => 29,
            SpinnerStyle::BouncingBar => 30,
            SpinnerStyle::BouncingBall => 31,
            SpinnerStyle::Pong => 32,
            SpinnerStyle::Shark => 33,
            SpinnerStyle::Fish => 34,
            SpinnerStyle::Binary => 35,
            SpinnerStyle::DotsCircle => 36,
            SpinnerStyle::Sand => 37,
            SpinnerStyle::Dots8Bit => 38,
            SpinnerStyle::Moon => 39,
            SpinnerStyle::Clock => 40,
            SpinnerStyle::Earth => 41,
            SpinnerStyle::Weather => 42,
            SpinnerStyle::Hearts => 43,
            SpinnerStyle::Balloon => 44,
            SpinnerStyle::Grenade => 45,
            SpinnerStyle::FingerDance => 46,
            SpinnerStyle::FistBump => 47,
            SpinnerStyle::Smiley => 48,
            SpinnerStyle::Monkey => 49,
            SpinnerStyle::Speaker => 50,
            SpinnerStyle::Runner => 51,
            SpinnerStyle::SoccerHeader => 52,
            SpinnerStyle::Mindblown => 53,
            SpinnerStyle::OrangePulse => 54,
            SpinnerStyle::BluePulse => 55,
            SpinnerStyle::OrangeBluePulse => 56,
            SpinnerStyle::TimeTravel => 57,
            SpinnerStyle::Christmas => 58,
            SpinnerStyle::Flame => 59,
            SpinnerStyle::Pizza => 60,
            SpinnerStyle::Dizzy => 61,
            SpinnerStyle::Ninja => 62,
            SpinnerStyle::Magic => 63,
            SpinnerStyle::Robot => 64,
            SpinnerStyle::Boom => 65,
            SpinnerStyle::Unicorn => 66,
            SpinnerStyle::Bee => 67,
            SpinnerStyle::Dragon => 68,
            SpinnerStyle::GhostSpinner => 69,
            SpinnerStyle::Pumpkin => 70,
            SpinnerStyle::Wizard => 71,
            SpinnerStyle::Crown => 72,
            SpinnerStyle::Diamond => 73,
            SpinnerStyle::Fire => 74,
            SpinnerStyle::Rocket => 75,
            SpinnerStyle::StarSpin => 76,
            SpinnerStyle::Confetti => 77,
            SpinnerStyle::Cthulhu => 78,
            SpinnerStyle::DwarfFortress => 79,
        }
    }

    /// The style at a catalogue position, if there is one.
    pub fn from_index(i: usize) -> (r: Option<SpinnerStyle>)
        ensures
            r == (if i < 80 { Some(style_at(i as int)) } else { None::<SpinnerStyle> }),
    {
        match i {
            0 => Some(SpinnerStyle::Dots),
            1 => Some(SpinnerStyle::DotsFull),
            2 => Some(SpinnerStyle::DotsCorner),
            3 => Some(SpinnerStyle::Arc),
            4 => Some(SpinnerStyle::Circle),
            5 => Some(SpinnerStyle::CircleQuarters),
            6 => Some(SpinnerStyle::CircleHalves),
            7 => Some(SpinnerStyle::SquareCorners),
            8 => Some(SpinnerStyle::Triangle),
            9 => Some(SpinnerStyle::Star),
            10 => Some(SpinnerStyle::Star2),
            11 => Some(SpinnerStyle::Arrow),
            12 => Some(SpinnerStyle::Arrow3),
            13 => Some(SpinnerStyle::Bounce),
            14 => Some(SpinnerStyle::BoxBounce),
            15 => Some(SpinnerStyle::Pipe),
            16 => Some(SpinnerStyle::Noise),
            17 => Some(SpinnerStyle::Aesthetic),
            18 => Some(SpinnerStyle::GrowVertical),
            19 => Some(SpinnerStyle::GrowHorizontal),
            20 => Some(SpinnerStyle::Point),
            21 => Some(SpinnerStyle::BetaWave),
            22 => Some(SpinnerStyle::Layer),
            23 => Some(SpinnerStyle::Liquid),
            24 => Some(SpinnerStyle::Crystal),
            25 => Some(SpinnerStyle::Galaxy),
            26 => Some(SpinnerStyle::Vortex),
            27 => Some(SpinnerStyle::Toggle),
            28 => Some(SpinnerStyle::Flip),
            29 => Some(SpinnerStyle::Sandwich),
            30 => Some(SpinnerStyle::BouncingBar),
            31 => Some(SpinnerStyle::BouncingBall),
            32 => Some(SpinnerStyle::Pong),
            33 => Some(SpinnerStyle::Shark),
            34 => Some(SpinnerStyle::Fish),
            35 => Some(SpinnerStyle::Binary),
            36 => Some(SpinnerStyle::DotsCircle),
            37 => Some(SpinnerStyle::Sand),
            38 => Some(SpinnerStyle::Dots8Bit),
            39 => Some(SpinnerStyle::Moon),
            40 => Some(SpinnerStyle::Clock),
            41 => Some(SpinnerStyle::Earth),
            42 => Some(SpinnerStyle::Weather),
            43 => Some(SpinnerStyle::Hearts),
            44 => Some(SpinnerStyle::Balloon),
            45 => Some(SpinnerStyle::Grenade),
            46 => Some(SpinnerStyle::FingerDance),
            47 => Some(SpinnerStyle::FistBump),
            48 => Some(SpinnerStyle::Smiley),
            49 => Some(SpinnerStyle::Monkey),
            50 => Some(SpinnerStyle::Speaker),
            51 => Some(SpinnerStyle::Runner),
            52 => Some(SpinnerStyle::SoccerHeader),
            53 => Some(SpinnerStyle::Mindblown),
            54 => Some(SpinnerStyle::OrangePulse),
            55 => Some(SpinnerStyle::BluePulse),
            56 => Some(SpinnerStyle::OrangeBluePulse),
            57 => Some(SpinnerStyle::TimeTravel),
            58 => Some(SpinnerStyle::Christmas),
            59 => Some(SpinnerStyle::Flame),
            60 => Some(SpinnerStyle::Pizza),
            61 => Some(SpinnerStyle::Dizzy),
            62 => Some(SpinnerStyle::Ninja),
            63 => Some(SpinnerStyle::Magic),
            64 => Some(SpinnerStyle::Robot),
            65 => Some(SpinnerStyle::Boom),
            66 => Some(SpinnerStyle::Unicorn),
            67 => Some(SpinnerStyle::Bee),
            68 => Some(SpinnerStyle::Dragon),
            69 => Some(SpinnerStyle::GhostSpinner),
            70 => Some(SpinnerStyle::Pumpkin),
            71 => Some(SpinnerStyle::Wizard),
            72 => Some(SpinnerStyle::Crown),
            73 => Some(SpinnerStyle::Diamond),
            74 => Some(SpinnerStyle::Fire),
            75 => Some(SpinnerStyle::Rocket),
            76 => Some(SpinnerStyle::StarSpin),
            77 => Some(SpinnerStyle::Confetti),
            78 => Some(SpinnerStyle::Cthulhu),
            79 => Some(SpinnerStyle::DwarfFortress),
            _ => None,
        }
    }

    /// The name this style is written under in the configuration file.
    pub fn config_name(self) -> (r: &'static str)
        ensures
            r@ == config_name_spec(self),
    {
        match self {
            SpinnerStyle::Dots => "dots",
            SpinnerStyle::DotsFull => "dots-full",
            SpinnerStyle::DotsCorner => "dots-corner",
            SpinnerStyle::Arc => "arc",
            SpinnerStyle::Circle => "circle",
            SpinnerStyle::CircleQuarters => "circle-quarters",
            SpinnerStyle::CircleHalves => "circle-halves",
            SpinnerStyle::SquareCorners => "square-corners",
            SpinnerStyle::Triangle => "triangle",
            SpinnerStyle::Star => "star",
            SpinnerStyle::Star2 => "star2",
            SpinnerStyle::Arrow => "arrow",
            SpinnerStyle::Arrow3 => "arrow3",
            SpinnerStyle::Bounce => "bounce",
            SpinnerStyle::BoxBounce => "box-bounce",
            SpinnerStyle::Pipe => "pipe",
            SpinnerStyle::Noise => "noise",
            SpinnerStyle::Aesthetic => "aesthetic",
            SpinnerStyle::GrowVertical => "grow-vertical",
            SpinnerStyle::GrowHorizontal => "grow-horizontal",
            SpinnerStyle::Point => "point",
            SpinnerStyle::BetaWave => "beta-wave",
            SpinnerStyle::Layer => "layer",
            SpinnerStyle::Liquid => "liquid",
            SpinnerStyle::Crystal => "crystal",
            SpinnerStyle::Galaxy => "galaxy",
            SpinnerStyle::Vortex => "vortex",
            SpinnerStyle::Toggle => "toggle",
            SpinnerStyle::Flip => "flip",
            SpinnerStyle::Sandwich => "sandwich",
            SpinnerStyle::BouncingBar => "bouncing-bar",
            SpinnerStyle::BouncingBall => "bouncing-ball",
            SpinnerStyle::Pong => "pong",
            SpinnerStyle::Shark => "shark",
            SpinnerStyle::Fish => "fish",
            SpinnerStyle::Binary => "binary",
            SpinnerStyle::DotsCircle => "dots-circle",
            SpinnerStyle::Sand => "sand",
            SpinnerStyle::Dots8Bit => "dots8-bit",
            SpinnerStyle::Moon => "moon",
            SpinnerStyle::Clock => "clock",
            SpinnerStyle::Earth => "earth",
            SpinnerStyle::Weather => "weather",
            SpinnerStyle::Hearts => "hearts",
            SpinnerStyle::Balloon => "balloon",
            SpinnerStyle::Grenade => "grenade",
            SpinnerStyle::FingerDance => "finger-dance",
            SpinnerStyle::FistBump => "fist-bump",
            SpinnerStyle::Smiley => "smiley",
            SpinnerStyle::Monkey => "monkey",
            SpinnerStyle::Speaker => "speaker",
            SpinnerStyle::Runner => "runner",
            SpinnerStyle::SoccerHeader => "soccer-header",
            SpinnerStyle::Mindblown => "mindblown",
            SpinnerStyle::OrangePulse => "orange-pulse",
            SpinnerStyle::BluePulse => "blue-pulse",
            SpinnerStyle::OrangeBluePulse => "orange-blue-pulse",
            SpinnerStyle::TimeTravel => "time-travel",
            SpinnerStyle::Christmas => "christmas",
            SpinnerStyle::Flame => "flame",
            SpinnerStyle::Pizza => "pizza",
            SpinnerStyle::Dizzy => "dizzy",
            SpinnerStyle::Ninja => "ninja",
            SpinnerStyle::Magic => "magic",
            SpinnerStyle::Robot => "robot",
            SpinnerStyle::Boom => "boom",
            SpinnerStyle::Unicorn => "unicorn",
            SpinnerStyle::Bee => "bee",
            SpinnerStyle::Dragon => "dragon",
            SpinnerStyle::GhostSpinner => "ghost",
            SpinnerStyle::Pumpkin => "pumpkin",
            SpinnerStyle::Wizard => "wizard",
            SpinnerStyle::Crown => "crown",
            SpinnerStyle::Diamond => "diamond",
            SpinnerStyle::Fire => "fire",
            SpinnerStyle::Rocket => "rocket",
            SpinnerStyle::StarSpin => "star-spin",
            SpinnerStyle::Confetti => "confetti",
            SpinnerStyle::Cthulhu => "cthulhu",
            SpinnerStyle::DwarfFortress => "dwarf-fortress",
        }
    }

    /// All styles, in catalogue order.
    pub fn all() -> (r: Vec<SpinnerStyle>)
        ensures
            r.len() == 80,
            forall|i: int| 0 <= i < 80 ==> #[trigger] r@[i] == style_at(i),
    {
        let mut r: Vec<SpinnerStyle> = Vec::new();
        let mut i: usize = 0;
        while i < SPINNER_STYLE_COUNT
            invariant
                i <= 80,
                r.len() == i,
                forall|k: int| 0 <= k < i ==> #[trigger] r@[k] == style_at(k),
            decreases 80 - i,
        {
            match SpinnerStyle::from_index(i) {
                Some(s) => r.push(s),
                None => {},
            }
            i = i + 1;
        }
        r
    }
}

/// The TOML value (a quoted string) that stores `style` in the configuration.
pub fn spinner_style_toml_value(style: SpinnerStyle) -> (r: String)
    ensures
        r@ == seq!['"'] + config_name_spec(style) + seq!['"'],
{
    let mut out = String::new();
    out.push('"');
    let name = style.config_name();
    let mut i: usize = 0;
    while i < name.unicode_len()
        invariant
            i <= name@.len(),
            name@ == config_name_spec(style),
            out@ == seq!['"'] + name@.subrange(0, i as int),
        decreases name@.len() - i,
    {
        out.push(name.get_char(i));
        assert(name@.subrange(0, i + 1) == name@.subrange(0, i as int).push(name@[i as int]));
        i = i + 1;
    }
    out.push('"');
    assert(name@.subrange(0, name@.len() as int) == name@);
    out
}

/// A named group of spinner styles shown together in settings.
pub struct SpinnerCategory {
    pub label: &'static str,
    pub styles: Vec<SpinnerStyle>,
}

fn category_label(c: usize) -> (r: &'static str)
    requires
        c < 5,
    ensures
        r@ == category_label_spec(c as int),
{
    match c {
        0 => "classic",
        1 => "motion",
        2 => "play",
        3 => "emoji",
        4 => "fantasy",
        _ => "classic",
    }
}

/// Category `c` with its label and styles.
pub fn spinner_category(c: usize) -> (r: SpinnerCategory)
    requires
        c < 5,
    ensures
        r.label@ == category_label_spec(c as int),
        r.styles@ == category_styles_spec(c as int),
{
    let mut styles: Vec<SpinnerStyle> = Vec::new();
    let mut j: usize = 0;
    while j < STYLES_PER_CATEGORY
        invariant
            c < 5,
            j <= 16,
            styles.len() == j,
            forall|k: int| 0 <= k < j ==> #[trigger] styles@[k] == style_at(16 * c + k),
        decreases 16 - j,
    {
        match SpinnerStyle::from_index(16 * c + j) {
            Some(s) => styles.push(s),
            None => {},
        }
        j = j + 1;
    }
    assert(styles@ == category_styles_spec(c as int));
    SpinnerCategory { label: category_label(c), styles }
}

/// All categories, in display order.
pub fn spinner_categories() -> (r: Vec<SpinnerCategory>)
    ensures
        r.len() == 5,
        forall|c: int|
            0 <= c < 5 ==> (#[trigger] r@[c]).label@ == category_label_spec(c) && r@[c].styles@
                == category_styles_spec(c),
{
    let mut r: Vec<SpinnerCategory> = Vec::new();
    let mut c: usize = 0;
    while c < SPINNER_CATEGORY_COUNT
        invariant
            c <= 5,
            r.len() == c,
            forall|k: int|
                0 <= k < c ==> (#[trigger] r@[k]).label@ == category_label_spec(k) && r@[k].styles@
                    == category_styles_spec(k),
        decreases 5 - c,
    {
        r.push(spinner_category(c));
        c = c + 1;
    }
    r
}

/// The category shown for a selector position; the first category when the
/// position is out of range.
pub fn active_spinner_category(index: usize) -> (r: SpinnerCategory)
    ensures
        r.label@ == category_label_spec(if index < 5 { index as int } else { 0 }),
        r.styles@ == category_styles_spec(if index < 5 { index as int } else { 0 }),
{
    if index < SPINNER_CATEGORY_COUNT {
        spinner_category(index)
    } else {
        spinner_category(0)
    }
}

/// How many spinner styles exist.
pub fn spinner_style_count() -> (r: usize)
    ensures
        r == 80,
{
    SPINNER_STYLE_COUNT
}



/// The style stored under configuration name `n`, if any.
pub open spec fn style_named(n: Seq<char>) -> Option<SpinnerStyle> {
    if n.len() == 3 {
        if n[0] == 'a' {
            if n == "arc"@ {
                Some(SpinnerStyle::Arc)
            } else {
                None
            }
        } else if n[0] == 'b' {
            if n == "bee"@ {
                Some(SpinnerStyle::Bee)
            } else {
                None
            }
        } else {
            None
        }
    } else if n.len() == 4 {
        if n[2] == 't' {
            if n == "dots"@ {
                Some(SpinnerStyle::Dots)
            } else {
                None
            }
        } else if n[2] == 'a' {
            if n == "star"@ {
                Some(SpinnerStyle::Star)
            } else {
                None
            }
        } else if n[2] == 'p' {
            if n == "pipe"@ {
                Some(SpinnerStyle::Pipe)
            } else {
                None
            }
        } else if n[2] == 'i' {
            if n == "flip"@ {
                Some(SpinnerStyle::Flip)
            } else {
                None
            }
        } else if n[2] == 'n' {
            if n[0] == 'p' {
                if n == "pong"@ {
                    Some(SpinnerStyle::Pong)
                } else {
                    None
                }
            } else if n[0] == 's' {
                if n == "sand"@ {
                    Some(SpinnerStyle::Sand)
                } else {
                    None
                }
            } else {
                None
            }
        } else if n[2] == 's' {
            if n == "fish"@ {
                Some(SpinnerStyle::Fish)
            } else {
                None
            }
        } else if n[2] == 'o' {
            if n[0] == 'm' {
                if n == "moon"@ {
                    Some(SpinnerStyle::Moon)
                } else {
                    None
                }
            } else if n[0] == 'b' {
                if n == "boom"@ {
                    Some(SpinnerStyle::Boom)
                } else {
                    None
                }
            } else {
                None
            }
        } else if n[2] == 'r' {
            if n == "fire"@ {
                Some(SpinnerStyle::Fire)
            } else {
                None
            }
        } else {
            None
        }
    } else if n.len() == 5 {
        if n[0] == 's' {
            if n[1] == 't' {
                if n == "star2"@ {
                    Some(SpinnerStyle::Star2)
                } else {
                    None
                }
            } else if n[1] == 'h' {
                if n == "shark"@ {
                    Some(SpinnerStyle::Shark)
                } else {
                    None
                }
            } else {
                None
            }
        } else if n[0] == 'a' {
            if n == "arrow"@ {
                Some(SpinnerStyle::Arrow)
            } else {
                None
            }
        } else if n[0] == 'n' {
            if n[1] == 'o' {
                if n == "noise"@ {
                    Some(SpinnerStyle::Noise)
                } else {
                    None
                }
            } else if n[1] == 'i' {
                if n == "ninja"@ {
                    Some(SpinnerStyle::Ninja)
                } else {
                    None
                }
            } else {
                None
            }
        } else if n[0] == 'p' {
            if n[1] == 'o' {
                if n == "point"@ {
                    Some(SpinnerStyle::Point)
                } else {
                    None
                }
            } else if n[1] == 'i' {
                if n == "pizza"@ {
                    Some(SpinnerStyle::Pizza)
                } else {
                    None
                }
            } else {
                None
            }
        } else if n[0] == 'l' {
            if n == "layer"@ {
                Some(SpinnerStyle::Layer)
            } else {
                None
            }
        } else if n[0] == 'c' {
            if n[1] == 'l' {
                if n == "clock"@ {
                    Some(SpinnerStyle::Clock)
                } else {
                    None
                }
            } else if n[1] == 'r' {
                if n == "crown"@ {
                    Some(SpinnerStyle::Crown)
                } else {
                    None
                }
            } else {
                None
            }
        } else if n[0] == 'e' {
            if n == "earth"@ {
                Some(SpinnerStyle::Earth)
            } else {
                None
            }
        } else if n[0] == 'f' {
            if n == "flame"@ {
                Some(SpinnerStyle::Flame)
            } else {
                None
            }
        } else if n[0] == 'd' {
            if n == "dizzy"@ {
                Some(SpinnerStyle::Dizzy)
            } else {
                None
            }
        } else if n[0] == 'm' {
            if n == "magic"@ {
                Some(SpinnerStyle::Magic)
            } else {
                None
            }
        } else if n[0] == 'r' {
            if n == "robot"@ {
                Some(SpinnerStyle::Robot)
            } else {
                None
            }
        } else if n[0] == 'g' {
            if n == "ghost"@ {
                Some(SpinnerStyle::GhostSpinner)
            } else {
                None
            }
        } else {
            None
        }
    } else if n.len() == 6 {
        if n[0] == 'c' {
            if n == "circle"@ {
                Some(SpinnerStyle::Circle)
            } else {
                None
            }
        } else if n[0] == 'a' {
            if n == "arrow3"@ {
                Some(SpinnerStyle::Arrow3)
            } else {
                None
            }
        } else if n[0] == 'b' {
            if n[1] == 'o' {
                if n == "bounce"@ {
                    Some(SpinnerStyle::Bounce)
                } else {
                    None
                }
            } else if n[1] == 'i' {
                if n == "binary"@ {
                    Some(SpinnerStyle::Binary)
                } else {
                    None
                }
            } else {
                None
            }
        } else if n[0] == 'l' {
            if n == "liquid"@ {
                Some(SpinnerStyle::Liquid)
            } else {
                None
            }
        } else if n[0] == 'g' {
            if n == "galaxy"@ {
                Some(SpinnerStyle::Galaxy)
            } else {
                None
            }
        } else if n[0] == 'v' {
            if n == "vortex"@ {
                Some(SpinnerStyle::Vortex)
            } else {
                None
            }
        } else if n[0] == 't' {
            if n == "toggle"@ {
                Some(SpinnerStyle::Toggle)
            } else {
                None
            }
        } else if n[0] == 'h' {
            if n == "hearts"@ {
                Some(SpinnerStyle::Hearts)
            } else {
                None
            }
        } else if n[0] == 's' {
            if n == "smiley"@ {
                Some(SpinnerStyle::Smiley)
            } else {
                None
            }
        } else if n[0] == 'm' {
            if n == "monkey"@ {
                Some(SpinnerStyle::Monkey)
            } else {
                None
            }
        } else if n[0] == 'r' {
            if n[1] == 'u' {
                if n == "runner"@ {
                    Some(SpinnerStyle::Runner)
                } else {
                    None
                }
            } else if n[1] == 'o' {
                if n == "rocket"@ {
                    Some(SpinnerStyle::Rocket)
                } else {
                    None
                }
            } else {
                None
            }
        } else if n[0] == 'd' {
            if n == "dragon"@ {
                Some(SpinnerStyle::Dragon)
            } else {
                None
            }
        } else if n[0] == 'w' {
            if n == "wizard"@ {
                Some(SpinnerStyle::Wizard)
            } else {
                None
            }
        } else {
            None
        }
    } else if n.len() == 7 {
        if n[3] == 's' {
            if n == "crystal"@ {
                Some(SpinnerStyle::Crystal)
            } else {
                None
            }
        } else if n[3] == 't' {
            if n == "weather"@ {
                Some(SpinnerStyle::Weather)
            } else {
                None
            }
        } else if n[3] == 'l' {
            if n == "balloon"@ {
                Some(SpinnerStyle::Balloon)
            } else {
                None
            }
        } else if n[3] == 'n' {
            if n == "grenade"@ {
                Some(SpinnerStyle::Grenade)
            } else {
                None
            }
        } else if n[3] == 'a' {
            if n == "speaker"@ {
                Some(SpinnerStyle::Speaker)
            } else {
                None
            }
        } else if n[3] == 'c' {
            if n == "unicorn"@ {
                Some(SpinnerStyle::Unicorn)
            } else {
                None
            }
        } else if n[3] == 'p' {
            if n == "pumpkin"@ {
                Some(SpinnerStyle::Pumpkin)
            } else {
                None
            }
        } else if n[3] == 'm' {
            if n == "diamond"@ {
                Some(SpinnerStyle::Diamond)
            } else {
                None
            }
        } else if n[3] == 'u' {
            if n == "cthulhu"@ {
                Some(SpinnerStyle::Cthulhu)
            } else {
                None
            }
        } else {
            None
        }
    } else if n.len() == 8 {
        if n[0] == 't' {
            if n == "triangle"@ {
                Some(SpinnerStyle::Triangle)
            } else {
                None
            }
        } else if n[0] == 's' {
            if n == "sandwich"@ {
                Some(SpinnerStyle::Sandwich)
            } else {
                None
            }
        } else if n[0] == 'c' {
            if n == "confetti"@ {
                Some(SpinnerStyle::Confetti)
            } else {
                None
            }
        } else {
            None
        }
    } else if n.len() == 9 {
        if n[5] == 'f' {
            if n == "dots-full"@ {
                Some(SpinnerStyle::DotsFull)
            } else {
                None
            }
        } else if n[5] == 'e' {
            if n == "aesthetic"@ {
                Some(SpinnerStyle::Aesthetic)
            } else {
                None
            }
        } else if n[5] == 'w' {
            if n == "beta-wave"@ {
                Some(SpinnerStyle::BetaWave)
            } else {
                None
            }
        } else if n[5] == '-' {
            if n == "dots8-bit"@ {
                Some(SpinnerStyle::Dots8Bit)
            } else {
                None
            }
        } else if n[5] == 'b' {
            if n == "fist-bump"@ {
                Some(SpinnerStyle::FistBump)
            } else {
                None
            }
        } else if n[5] == 'l' {
            if n == "mindblown"@ {
                Some(SpinnerStyle::Mindblown)
            } else {
                None
            }
        } else if n[5] == 't' {
            if n == "christmas"@ {
                Some(SpinnerStyle::Christmas)
            } else {
                None
            }
        } else if n[5] == 's' {
            if n == "star-spin"@ {
                Some(SpinnerStyle::StarSpin)
            } else {
                None
            }
        } else {
            None
        }
    } else if n.len() == 10 {
        if n[1] == 'o' {
            if n == "box-bounce"@ {
                Some(SpinnerStyle::BoxBounce)
            } else {
                None
            }
        } else if n[1] == 'l' {
            if n == "blue-pulse"@ {
                Some(SpinnerStyle::BluePulse)
            } else {
                None
            }
        } else {
            None
        }
    } else if n.len() == 11 {
        if n[6] == 'o' {
            if n == "dots-corner"@ {
                Some(SpinnerStyle::DotsCorner)
            } else {
                None
            }
        } else if n[6] == 'i' {
            if n == "dots-circle"@ {
                Some(SpinnerStyle::DotsCircle)
            } else {
                None
            }
        } else if n[6] == 'r' {
            if n == "time-travel"@ {
                Some(SpinnerStyle::TimeTravel)
            } else {
                None
            }
        } else {
            None
        }
    } else if n.len() == 12 {
        if n[0] == 'b' {
            if n == "bouncing-bar"@ {
                Some(SpinnerStyle::BouncingBar)
            } else {
                None
            }
        } else if n[0] == 'f' {
            if n == "finger-dance"@ {
                Some(SpinnerStyle::FingerDance)
            } else {
                None
            }
        } else if n[0] == 'o' {
            if n == "orange-pulse"@ {
                Some(SpinnerStyle::OrangePulse)
            } else {
                None
            }
        } else {
            None
        }
    } else if n.len() == 13 {
        if n[0] == 'c' {
            if n == "circle-halves"@ {
                Some(SpinnerStyle::CircleHalves)
            } else {
                None
            }
        } else if n[0] == 'g' {
            if n == "grow-vertical"@ {
                Some(SpinnerStyle::GrowVertical)
            } else {
                None
            }
        } else if n[0] == 'b' {
            if n == "bouncing-ball"@ {
                Some(SpinnerStyle::BouncingBall)
            } else {
                None
            }
        } else if n[0] == 's' {
            if n == "soccer-header"@ {
                Some(SpinnerStyle::SoccerHeader)
            } else {
                None
            }
        } else {
            None
        }
    } else if n.len() == 14 {
        if n[0] == 's' {
            if n == "square-corners"@ {
                Some(SpinnerStyle::SquareCorners)
            } else {
                None
            }
        } else if n[0] == 'd' {
            if n == "dwarf-fortress"@ {
                Some(SpinnerStyle::DwarfFortress)
            } else {
                None
            }
        } else {
            None
        }
    } else if n.len() == 15 {
        if n[0] == 'c' {
            if n == "circle-quarters"@ {
                Some(SpinnerStyle::CircleQuarters)
            } else {
                None
            }
        } else if n[0] == 'g' {
            if n == "grow-horizontal"@ {
                Some(SpinnerStyle::GrowHorizontal)
            } else {
                None
            }
        } else {
            None
        }
    } else if n.len() == 17 {
        if n == "orange-blue-pulse"@ {
            Some(SpinnerStyle::OrangeBluePulse)
        } else {
            None
        }
    } else {
        None
    }
}

/// A style's configuration name reads back as that style, so different
/// styles are stored under different names.
#[verifier::spinoff_prover]
#[verifier::rlimit(100)]
pub proof fn law_config_name_reads_back(a: SpinnerStyle, b: SpinnerStyle)
    ensures
        style_named(config_name_spec(a)) == Some(a),
        config_name_spec(a) == config_name_spec(b) ==> a == b,
{
    lemma_style_named_inverse(a);
    lemma_style_named_inverse(b);
}

proof fn lemma_style_named_inverse(s: SpinnerStyle)
    ensures
        style_named(config_name_spec(s)) == Some(s),
{
    match s {
        SpinnerStyle::Dots => reveal_strlit("dots"),
        SpinnerStyle::DotsFull => reveal_strlit("dots-full"),
        SpinnerStyle::DotsCorner => reveal_strlit("dots-corner"),
        SpinnerStyle::Arc => reveal_strlit("arc"),
        SpinnerStyle::Circle => reveal_strlit("circle"),
        SpinnerStyle::CircleQuarters => reveal_strlit("circle-quarters"),
        SpinnerStyle::CircleHalves => reveal_strlit("circle-halves"),
        SpinnerStyle::SquareCorners => reveal_strlit("square-corners"),
        SpinnerStyle::Triangle => reveal_strlit("triangle"),
        SpinnerStyle::Star => reveal_strlit("star"),
        SpinnerStyle::Star2 => reveal_strlit("star2"),
        SpinnerStyle::Arrow => reveal_strlit("arrow"),
        SpinnerStyle::Arrow3 => reveal_strlit("arrow3"),
        SpinnerStyle::Bounce => reveal_strlit("bounce"),
        SpinnerStyle::BoxBounce => reveal_strlit("box-bounce"),
        SpinnerStyle::Pipe => reveal_strlit("pipe"),
        SpinnerStyle::Noise => reveal_strlit("noise"),
        SpinnerStyle::Aesthetic => reveal_strlit("aesthetic"),
        SpinnerStyle::GrowVertical => reveal_strlit("grow-vertical"),
        SpinnerStyle::GrowHorizontal => reveal_strlit("grow-horizontal"),
        SpinnerStyle::Point => reveal_strlit("point"),
        SpinnerStyle::BetaWave => reveal_strlit("beta-wave"),
        SpinnerStyle::Layer => reveal_strlit("layer"),
        SpinnerStyle::Liquid => reveal_strlit("liquid"),
        SpinnerStyle::Crystal => reveal_strlit("crystal"),
        SpinnerStyle::Galaxy => reveal_strlit("galaxy"),
        SpinnerStyle::Vortex => reveal_strlit("vortex"),
        SpinnerStyle::Toggle => reveal_strlit("toggle"),
        SpinnerStyle::Flip => reveal_strlit("flip"),
        SpinnerStyle::Sandwich => reveal_strlit("sandwich"),
        SpinnerStyle::BouncingBar => reveal_strlit("bouncing-bar"),
        SpinnerStyle::BouncingBall => reveal_strlit("bouncing-ball"),
        SpinnerStyle::Pong => reveal_strlit("pong"),
        SpinnerStyle::Shark => reveal_strlit("shark"),
        SpinnerStyle::Fish => reveal_strlit("fish"),
        SpinnerStyle::Binary => reveal_strlit("binary"),
        SpinnerStyle::DotsCircle => reveal_strlit("dots-circle"),
        SpinnerStyle::Sand => reveal_strlit("sand"),
        SpinnerStyle::Dots8Bit => reveal_strlit("dots8-bit"),
        SpinnerStyle::Moon => reveal_strlit("moon"),
        SpinnerStyle::Clock => reveal_strlit("clock"),
        SpinnerStyle::Earth => reveal_strlit("earth"),
        SpinnerStyle::Weather => reveal_strlit("weather"),
        SpinnerStyle::Hearts => reveal_strlit("hearts"),
        SpinnerStyle::Balloon => reveal_strlit("balloon"),
        SpinnerStyle::Grenade => reveal_strlit("grenade"),
        SpinnerStyle::FingerDance => reveal_strlit("finger-dance"),
        SpinnerStyle::FistBump => reveal_strlit("fist-bump"),
        SpinnerStyle::Smiley => reveal_strlit("smiley"),
        SpinnerStyle::Monkey => reveal_strlit("monkey"),
        SpinnerStyle::Speaker => reveal_strlit("speaker"),
        SpinnerStyle::Runner => reveal_strlit("runner"),
        SpinnerStyle::SoccerHeader => reveal_strlit("soccer-header"),
        SpinnerStyle::Mindblown => reveal_strlit("mindblown"),
        SpinnerStyle::OrangePulse => reveal_strlit("orange-pulse"),
        SpinnerStyle::BluePulse => reveal_strlit("blue-pulse"),
        SpinnerStyle::OrangeBluePulse => reveal_strlit("orange-blue-pulse"),
        SpinnerStyle::TimeTravel => reveal_strlit("time-travel"),
        SpinnerStyle::Christmas => reveal_strlit("christmas"),
        SpinnerStyle::Flame => reveal_strlit("flame"),
        SpinnerStyle::Pizza => reveal_strlit("pizza"),
        SpinnerStyle::Dizzy => reveal_strlit("dizzy"),
        SpinnerStyle::Ninja => reveal_strlit("ninja"),
        SpinnerStyle::Magic => reveal_strlit("magic"),
        SpinnerStyle::Robot => reveal_strlit("robot"),
        SpinnerStyle::Boom => reveal_strlit("boom"),
        SpinnerStyle::Unicorn => reveal_strlit("unicorn"),
        SpinnerStyle::Bee => reveal_strlit("bee"),
        SpinnerStyle::Dragon => reveal_strlit("dragon"),
        SpinnerStyle::GhostSpinner => reveal_strlit("ghost"),
        SpinnerStyle::Pumpkin => reveal_strlit("pumpkin"),
        SpinnerStyle::Wizard => reveal_strlit("wizard"),
        SpinnerStyle::Crown => reveal_strlit("crown"),
        SpinnerStyle::Diamond => reveal_strlit("diamond"),
        SpinnerStyle::Fire => reveal_strlit("fire"),
        SpinnerStyle::Rocket => reveal_strlit("rocket"),
        SpinnerStyle::StarSpin => reveal_strlit("star-spin"),
        SpinnerStyle::Confetti => reveal_strlit("confetti"),
        SpinnerStyle::Cthulhu => reveal_strlit("cthulhu"),
        SpinnerStyle::DwarfFortress => reveal_strlit("dwarf-fortress"),
    }
}

} // verus!
