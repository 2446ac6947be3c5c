use vstd::prelude::*;

verus! {

/// The closed set of Torznab search categories, one variant per defined
/// numeric wire code (0 and 1000..=8010). The code parameterizes outbound
/// category-scoped queries; [`code_of`] and [`category_of_code`] are the two
/// directions of the mapping.
#[derive(Clone, Copy, Debug, PartialEq, Eq, Structural)]
pub enum TorznabCategory {
    Reserved0000,
    Console1000,
    ConsoleNds1010,
    ConsolePsp1020,
    ConsoleWii1030,
    ConsoleXbox1040,
    ConsoleXbox3601050,
    ConsoleWiiware1060,
    ConsoleXbox360Dlc1070,
    Movies2000,
    MoviesForeign2010,
    MoviesOther2020,
    MoviesSd2030,
    MoviesHd2040,
    MoviesUhd2045,
    MoviesBluRay2050,
    Movies3d2060,
    Audio3000,
    AudioMp33010,
    AudioVideo3020,
    AudioAudiobook3030,
    AudioLossless3040,
    Pc4000,
    Pc0day4010,
    PcIso4020,
    PcMac4030,
    PcMobileOther4040,
    PcGames4050,
    PcMobileIos4060,
    PcMobileAndroid4070,
    Tv5000,
    TvForeign5020,
    TvSd5030,
    TvHd5040,
    TvUhd5045,
    TvOther5050,
    TvSport5060,
    TvAnime5070,
    TvDocumentary5080,
    Xxx6000,
    XxxDvd6010,
    XxxWmv6020,
    XxxXvid6030,
    XxxX2646040,
    XxxPack6050,
    XxxImgSet6060,
    XxxOther6070,
    Books7000,
    BooksMags7010,
    BooksEbook7020,
    BooksComics7030,
    Other8000,
    OtherMisc8010,
}

/// The numeric wire code of a category.
pub open spec fn code_of(c: TorznabCategory) -> u32 {
    match c {
        TorznabCategory::Reserved0000 => 0,
        TorznabCategory::Console1000 => 1000,
        TorznabCategory::ConsoleNds1010 => 1010,
        TorznabCategory::ConsolePsp1020 => 1020,
        TorznabCategory::ConsoleWii1030 => 1030,
        TorznabCategory::ConsoleXbox1040 => 1040,
        TorznabCategory::ConsoleXbox3601050 => 1050,
        TorznabCategory::ConsoleWiiware1060 => 1060,
        TorznabCategory::ConsoleXbox360Dlc1070 => 1070,
        TorznabCategory::Movies2000 => 2000,
        TorznabCategory::MoviesForeign2010 => 2010,
        TorznabCategory::MoviesOther2020 => 2020,
        TorznabCategory::MoviesSd2030 => 2030,
        TorznabCategory::MoviesHd2040 => 2040,
        TorznabCategory::MoviesUhd2045 => 2045,
        TorznabCategory::MoviesBluRay2050 => 2050,
        TorznabCategory::Movies3d2060 => 2060,
        TorznabCategory::Audio3000 => 3000,
        TorznabCategory::AudioMp33010 => 3010,
        TorznabCategory::AudioVideo3020 => 3020,
        TorznabCategory::AudioAudiobook3030 => 3030,
        TorznabCategory::AudioLossless3040 => 3040,
        TorznabCategory::Pc4000 => 4000,
        TorznabCategory::Pc0day4010 => 4010,
        TorznabCategory::PcIso4020 => 4020,
        TorznabCategory::PcMac4030 => 4030,
        TorznabCategory::PcMobileOther4040 => 4040,
        TorznabCategory::PcGames4050 => 4050,
        TorznabCategory::PcMobileIos4060 => 4060,
        TorznabCategory::PcMobileAndroid4070 => 4070,
        TorznabCategory::Tv5000 => 5000,
        TorznabCategory::TvForeign5020 => 5020,
        TorznabCategory::TvSd5030 => 5030,
        TorznabCategory::TvHd5040 => 5040,
        TorznabCategory::TvUhd5045 => 5045,
        TorznabCategory::TvOther5050 => 5050,
        TorznabCategory::TvSport5060 => 5060,
        TorznabCategory::TvAnime5070 => 5070,
        TorznabCategory::TvDocumentary5080 => 5080,
        TorznabCategory::Xxx6000 => 6000,
        TorznabCategory::XxxDvd6010 => 6010,
        TorznabCategory::XxxWmv6020 => 6020,
        TorznabCategory::XxxXvid6030 => 6030,
        TorznabCategory::XxxX2646040 => 6040,
        TorznabCategory::XxxPack6050 => 6050,
        TorznabCategory::XxxImgSet6060 => 6060,
        TorznabCategory::XxxOther6070 => 6070,
        TorznabCategory::Books7000 => 7000,
        TorznabCategory::BooksMags7010 => 7010,
        TorznabCategory::BooksEbook7020 => 7020,
        TorznabCategory::BooksComics7030 => 7030,
        TorznabCategory::Other8000 => 8000,
        TorznabCategory::OtherMisc8010 => 8010,
    }
}

/// The category denoted by a numeric wire code. Codes outside the defined
/// set fall back to `Console1000`: an unrecognized code must not fail the
/// query pipeline.
pub open spec fn category_of_code(value: u32) -> TorznabCategory {
    if value == 0 {
        TorznabCategory::Reserved0000
    } else if value == 1000 {
        TorznabCategory::Console1000
    } else if value == 1010 {
        TorznabCategory::ConsoleNds1010
    } else if value == 1020 {
        TorznabCategory::ConsolePsp1020
    } else if value == 1030 {
        TorznabCategory::ConsoleWii1030
    } else if value == 1040 {
        TorznabCategory::ConsoleXbox1040
    } else if value == 1050 {
        TorznabCategory::ConsoleXbox3601050
    } else if value == 1060 {
        TorznabCategory::ConsoleWiiware1060
    } else if value == 1070 {
        TorznabCategory::ConsoleXbox360Dlc1070
    } else if value == 2000 {
        TorznabCategory::Movies2000
    } else if value == 2010 {
        TorznabCategory::MoviesForeign2010
    } else if value == 2020 {
        TorznabCategory::MoviesOther2020
    } else if value == 2030 {
        TorznabCategory::MoviesSd2030
    } else if value == 2040 {
        TorznabCategory::MoviesHd2040
    } else if value == 2045 {
        TorznabCategory::MoviesUhd2045
    } else if value == 2050 {
        TorznabCategory::MoviesBluRay2050
    } else if value == 2060 {
        TorznabCategory::Movies3d2060
    } else if value == 3000 {
        TorznabCategory::Audio3000
    } else if value == 3010 {
        TorznabCategory::AudioMp33010
    } else if value == 3020 {
        TorznabCategory::AudioVideo3020
    } else if value == 3030 {
        TorznabCategory::AudioAudiobook3030
    } else if value == 3040 {
        TorznabCategory::AudioLossless3040
    } else if value == 4000 {
        TorznabCategory::Pc4000
    } else if value == 4010 {
        TorznabCategory::Pc0day4010
    } else if value == 4020 {
        TorznabCategory::PcIso4020
    } else if value == 4030 {
        TorznabCategory::PcMac4030
    } else if value == 4040 {
        TorznabCategory::PcMobileOther4040
    } else if value == 4050 {
        TorznabCategory::PcGames4050
    } else if value == 4060 {
        TorznabCategory::PcMobileIos4060
    } else if value == 4070 {
        TorznabCategory::PcMobileAndroid4070
    } else if value == 5000 {
        TorznabCategory::Tv5000
    } else if value == 5020 {
        TorznabCategory::TvForeign5020
    } else if value == 5030 {
        TorznabCategory::TvSd5030
    } else if value == 5040 {
        TorznabCategory::TvHd5040
    } else if value == 5045 {
        TorznabCategory::TvUhd5045
    } else if value == 5050 {
        TorznabCategory::TvOther5050
    } else if value == 5060 {
        TorznabCategory::TvSport5060
    } else if value == 5070 {
        TorznabCategory::TvAnime5070
    } else if value == 5080 {
        TorznabCategory::TvDocumentary5080
    } else if value == 6000 {
        TorznabCategory::Xxx6000
    } else if value == 6010 {
        TorznabCategory::XxxDvd6010
    } else if value == 6020 {
        TorznabCategory::XxxWmv6020
    } else if value == 6030 {
        TorznabCategory::XxxXvid6030
    } else if value == 6040 {
        TorznabCategory::XxxX2646040
    } else if value == 6050 {
        TorznabCategory::XxxPack6050
    } else if value == 6060 {
        TorznabCategory::XxxImgSet6060
    } else if value == 6070 {
        TorznabCategory::XxxOther6070
    } else if value == 7000 {
        TorznabCategory::Books7000
    } else if value == 7010 {
        TorznabCategory::BooksMags7010
    } else if value == 7020 {
        TorznabCategory::BooksEbook7020
    } else if value == 7030 {
        TorznabCategory::BooksComics7030
    } else if value == 8000 {
        TorznabCategory::Other8000
    } else if value == 8010 {
        TorznabCategory::OtherMisc8010
    } else {
        TorznabCategory::Console1000
    }
}

/// Whether a numeric value is one of the defined wire codes.
pub open spec fn is_defined_code(value: u32) -> bool {
    value == 0 || value == 1000 || value == 1010 || value == 1020 || value == 1030
        || value == 1040 || value == 1050 || value == 1060 || value == 1070 || value == 2000
        || value == 2010 || value == 2020 || value == 2030 || value == 2040 || value == 2045
        || value == 2050 || value == 2060 || value == 3000 || value == 3010 || value == 3020
        || value == 3030 || value == 3040 || value == 4000 || value == 4010 || value == 4020
        || value == 4030 || value == 4040 || value == 4050 || value == 4060 || value == 4070
        || value == 5000 || value == 5020 || value == 5030 || value == 5040 || value == 5045
        || value == 5050 || value == 5060 || value == 5070 || value == 5080 || value == 6000
        || value == 6010 || value == 6020 || value == 6030 || value == 6040 || value == 6050
        || value == 6060 || value == 6070 || value == 7000 || value == 7010 || value == 7020
        || value == 7030 || value == 8000 || value == 8010
}

impl TorznabCategory {
    /// Returns the numeric ID of the category.
    pub fn as_u32(self) -> (r: u32)
        ensures
            r == code_of(self),
    {
        match self {
            TorznabCategory::Reserved0000 => 0,
            TorznabCategory::Console1000 => 1000,
            TorznabCategory::ConsoleNds1010 => 1010,
            TorznabCategory::ConsolePsp1020 => 1020,
            TorznabCategory::ConsoleWii1030 => 1030,
            TorznabCategory::ConsoleXbox1040 => 1040,
            TorznabCategory::ConsoleXbox3601050 => 1050,
            TorznabCategory::ConsoleWiiware1060 => 1060,
            TorznabCategory::ConsoleXbox360Dlc1070 => 1070,
            TorznabCategory::Movies2000 => 2000,
            TorznabCategory::MoviesForeign2010 => 2010,
            TorznabCategory::MoviesOther2020 => 2020,
            TorznabCategory::MoviesSd2030 => 2030,
            TorznabCategory::MoviesHd2040 => 2040,
            TorznabCategory::MoviesUhd2045 => 2045,
            TorznabCategory::MoviesBluRay2050 => 2050,
            TorznabCategory::Movies3d2060 => 2060,
            TorznabCategory::Audio3000 => 3000,
            TorznabCategory::AudioMp33010 => 3010,
            TorznabCategory::AudioVideo3020 => 3020,
            TorznabCategory::AudioAudiobook3030 => 3030,
            TorznabCategory::AudioLossless3040 => 3040,
            TorznabCategory::Pc4000 => 4000,
            TorznabCategory::Pc0day4010 => 4010,
            TorznabCategory::PcIso4020 => 4020,
            TorznabCategory::PcMac4030 => 4030,
            TorznabCategory::PcMobileOther4040 => 4040,
            TorznabCategory::PcGames4050 => 4050,
            TorznabCategory::PcMobileIos4060 => 4060,
            TorznabCategory::PcMobileAndroid4070 => 4070,
            TorznabCategory::Tv5000 => 5000,
            TorznabCategory::TvForeign5020 => 5020,
            TorznabCategory::TvSd5030 => 5030,
            TorznabCategory::TvHd5040 => 5040,
            TorznabCategory::TvUhd5045 => 5045,
            TorznabCategory::TvOther5050 => 5050,
            TorznabCategory::TvSport5060 => 5060,
            TorznabCategory::TvAnime5070 => 5070,
            TorznabCategory::TvDocumentary5080 => 5080,
            TorznabCategory::Xxx6000 => 6000,
            TorznabCategory::XxxDvd6010 => 6010,
            TorznabCategory::XxxWmv6020 => 6020,
            TorznabCategory::XxxXvid6030 => 6030,
            TorznabCategory::XxxX2646040 => 6040,
            TorznabCategory::XxxPack6050 => 6050,
            TorznabCategory::XxxImgSet6060 => 6060,
            TorznabCategory::XxxOther6070 => 6070,
            TorznabCategory::Books7000 => 7000,
            TorznabCategory::BooksMags7010 => 7010,
            TorznabCategory::BooksEbook7020 => 7020,
            TorznabCategory::BooksComics7030 => 7030,
            TorznabCategory::Other8000 => 8000,
            TorznabCategory::OtherMisc8010 => 8010,
        }
    }
}

impl From<u32> for TorznabCategory {
    /// Lifts a numeric wire code into the enumeration; unknown codes map to
    /// `Console1000` rather than failing.
    fn from(value: u32) -> (r: Self)
        ensures
            r == category_of_code(value),
    {
        match value {
            0 => TorznabCategory::Reserved0000,
            1000 => TorznabCategory::Console1000,
            1010 => TorznabCategory::ConsoleNds1010,
            1020 => TorznabCategory::ConsolePsp1020,
            1030 => TorznabCategory::ConsoleWii1030,
            1040 => TorznabCategory::ConsoleXbox1040,
            1050 => TorznabCategory::ConsoleXbox3601050,
            1060 => TorznabCategory::ConsoleWiiware1060,
            1070 => TorznabCategory::ConsoleXbox360Dlc1070,
            2000 => TorznabCategory::Movies2000,
            2010 => TorznabCategory::MoviesForeign2010,
            2020 => TorznabCategory::MoviesOther2020,
            2030 => TorznabCategory::MoviesSd2030,
            2040 => TorznabCategory::MoviesHd2040,
            2045 => TorznabCategory::MoviesUhd2045,
            2050 => TorznabCategory::MoviesBluRay2050,
            2060 => TorznabCategory::Movies3d2060,
            3000 => TorznabCategory::Audio3000,
            3010 => TorznabCategory::AudioMp33010,
            3020 => TorznabCategory::AudioVideo3020,
            3030 => TorznabCategory::AudioAudiobook3030,
            3040 => TorznabCategory::AudioLossless3040,
            4000 => TorznabCategory::Pc4000,
            4010 => TorznabCategory::Pc0day4010,
            4020 => TorznabCategory::PcIso4020,
            4030 => TorznabCategory::PcMac4030,
            4040 => TorznabCategory::PcMobileOther4040,
            4050 => TorznabCategory::PcGames4050,
            4060 => TorznabCategory::PcMobileIos4060,
            4070 => TorznabCategory::PcMobileAndroid4070,
            5000 => TorznabCategory::Tv5000,
            5020 => TorznabCategory::TvForeign5020,
            5030 => TorznabCategory::TvSd5030,
            5040 => TorznabCategory::TvHd5040,
            5045 => TorznabCategory::TvUhd5045,
            5050 => TorznabCategory::TvOther5050,
            5060 => TorznabCategory::TvSport5060,
            5070 => TorznabCategory::TvAnime5070,
            5080 => TorznabCategory::TvDocumentary5080,
            6000 => TorznabCategory::Xxx6000,
            6010 => TorznabCategory::XxxDvd6010,
            6020 => TorznabCategory::XxxWmv6020,
            6030 => TorznabCategory::XxxXvid6030,
            6040 => TorznabCategory::XxxX2646040,
            6050 => TorznabCategory::XxxPack6050,
            6060 => TorznabCategory::XxxImgSet6060,
            6070 => TorznabCategory::XxxOther6070,
            7000 => TorznabCategory::Books7000,
            7010 => TorznabCategory::BooksMags7010,
            7020 => TorznabCategory::BooksEbook7020,
            7030 => TorznabCategory::BooksComics7030,
            8000 => TorznabCategory::Other8000,
            8010 => TorznabCategory::OtherMisc8010,
            _ => TorznabCategory::Console1000,
        }
    }
}

impl vstd::std_specs::convert::FromSpecImpl<u32> for TorznabCategory {
    open spec fn obeys_from_spec() -> bool {
        true
    }

    open spec fn from_spec(v: u32) -> Self {
        category_of_code(v)
    }
}

/// Converting a category to its code and lifting the code back yields the
/// same category: the two directions of the mapping agree on every defined
/// variant.
pub proof fn lemma_code_round_trip(c: TorznabCategory)
    ensures
        category_of_code(code_of(c)) == c,
{
}

/// Every defined wire code is recovered exactly by the code of its category,
/// and every other value falls back to `Console1000`.
pub proof fn lemma_code_of_category(value: u32)
    ensures
        is_defined_code(value) ==> code_of(category_of_code(value)) == value,
        !is_defined_code(value) ==> category_of_code(value) == TorznabCategory::Console1000,
{
}

} // verus!
