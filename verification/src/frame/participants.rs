//! Participants frames: who drives the car in each slot.
use vstd::prelude::*;
use vstd::std_specs::convert::{TryFromSpec, TryFromSpecImpl};
use crate::error::{ErrorKind, ParseError};

verus! {

/// The number of participant slots in a participants frame.
pub const PARTICIPANT_SLOTS: usize = 22;

/// The body of a participants frame: the participants of the active slots,
/// in the order of the slots.
///
/// On the wire the body has 22 slots and says how many of them, counted from
/// the first, are active. The slots behind them hold nothing meaningful and
/// are not part of the decoded body.
#[derive(Debug, Clone, PartialEq, Eq)]
pub struct ParticipantsBody {
    pub participants: Vec<Participant>,
}

impl ParticipantsBody {
    /// A body has at most as many participants as the wire has slots. Every
    /// decoded body is of this kind.
    pub open spec fn wf(self) -> bool {
        self.participants@.len() <= PARTICIPANT_SLOTS
    }
}

impl View for ParticipantsBody {
    type V = Seq<Participant>;

    open spec fn view(&self) -> Seq<Participant> {
        self.participants@
    }
}

/// The participant of one slot.
#[derive(Debug, Clone, Copy, PartialEq, Eq)]
pub struct Participant {
    pub driver_id: Driver,
    pub team: Team,
    /// 0 where a human drives the car, any other value where the game does.
    pub ai_controlled: u8,
}

/// The drivers that the protocol knows by a wire code.
#[derive(Debug, Clone, Copy, PartialEq, Eq, Structural)]
pub enum Driver {
    CarlosSainz,
    DaniilKvyat,
    DanielRicciardo,
    KimiRaikkonen,
    LewisHamilton,
    MaxVerstappen,
    NicoHulkenberg,
    KevinMagnussen,
    RomainGrosjean,
    SebastianVettel,
    SergioPerez,
    ValtteriBottas,
    EstebanOcon,
    LanceStroll,
    ArronBarnes,
    MartinGiles,
    AlexMurray,
    LucasRoth,
    IgorCorreia,
    SophieLevasseur,
    JonasSchiffer,
    AlainForest,
    JayLetourneau,
    EstoSaari,
    YasarAtiyeh,
    CallistoCalabresi,
    NaotaIzum,
    HowardClarke,
    WilhelmKaufmann,
    MarieLaursen,
    FlavioNieves,
    PeterBelousov,
    KlimekMichalski,
    SantiagoMoreno,
    BenjaminCoppens,
    NoahVisser,
    GertWaldmuller,
    JulianQuesada,
    DanielJones,
    ArtemMarkelov,
    TadasukeMakino,
    SeanGelael,
    NyckDeVries,
    JackAitken,
    GeorgeRussell,
    MaximilianGunther,
    NireiFukuzumi,
    LucaGhiotto,
    LandoNorris,
    SergioSetteCamara,
    LouisDeletraz,
    AntonioFuoco,
    CharlesLeclerc,
    PierreGasly,
    AlexanderAlbon,
    NicholasLatifi,
    DorianBoccolacci,
    NikoKari,
    RobertoMerhi,
    ArjunMaini,
    AlessioLorandi,
    RubenMeijer,
    RashidNair,
    JackTremblay,
    AntonioGiovinazzi,
    RobertKubica,
    NobuharuMatsushita,
    NikitaMazepin,
    GuanyuZhou,
    MickSchumacher,
    CallumIlott,
    JuanManuelCorrea,
    JordanKing,
    MahaveerRaghunathan,
    TatianaCalderon,
    AnthoineHubert,
    GiulianoAlesi,
    RalphBoschung,
}

impl Driver {
    /// The value that a wire code stands for.
    pub open spec fn from_ordinal(value: u8) -> Option<Driver> {
        match value {
            0 => Some(Driver::CarlosSainz),
            1 => Some(Driver::DaniilKvyat),
            2 => Some(Driver::DanielRicciardo),
            6 => Some(Driver::KimiRaikkonen),
            7 => Some(Driver::LewisHamilton),
            9 => Some(Driver::MaxVerstappen),
            10 => Some(Driver::NicoHulkenberg),
            11 => Some(Driver::KevinMagnussen),
            12 => Some(Driver::RomainGrosjean),
            13 => Some(Driver::SebastianVettel),
            14 => Some(Driver::SergioPerez),
            15 => Some(Driver::ValtteriBottas),
            17 => Some(Driver::EstebanOcon),
            19 => Some(Driver::LanceStroll),
            20 => Some(Driver::ArronBarnes),
            21 => Some(Driver::MartinGiles),
            22 => Some(Driver::AlexMurray),
            23 => Some(Driver::LucasRoth),
            24 => Some(Driver::IgorCorreia),
            25 => Some(Driver::SophieLevasseur),
            26 => Some(Driver::JonasSchiffer),
            27 => Some(Driver::AlainForest),
            28 => Some(Driver::JayLetourneau),
            29 => Some(Driver::EstoSaari),
            30 => Some(Driver::YasarAtiyeh),
            31 => Some(Driver::CallistoCalabresi),
            32 => Some(Driver::NaotaIzum),
            33 => Some(Driver::HowardClarke),
            34 => Some(Driver::WilhelmKaufmann),
            35 => Some(Driver::MarieLaursen),
            36 => Some(Driver::FlavioNieves),
            37 => Some(Driver::PeterBelousov),
            38 => Some(Driver::KlimekMichalski),
            39 => Some(Driver::SantiagoMoreno),
            40 => Some(Driver::BenjaminCoppens),
            41 => Some(Driver::NoahVisser),
            42 => Some(Driver::GertWaldmuller),
            43 => Some(Driver::JulianQuesada),
            44 => Some(Driver::DanielJones),
            45 => Some(Driver::ArtemMarkelov),
            46 => Some(Driver::TadasukeMakino),
            47 => Some(Driver::SeanGelael),
            48 => Some(Driver::NyckDeVries),
            49 => Some(Driver::JackAitken),
            50 => Some(Driver::GeorgeRussell),
            51 => Some(Driver::MaximilianGunther),
            52 => Some(Driver::NireiFukuzumi),
            53 => Some(Driver::LucaGhiotto),
            54 => Some(Driver::LandoNorris),
            55 => Some(Driver::SergioSetteCamara),
            56 => Some(Driver::LouisDeletraz),
            57 => Some(Driver::AntonioFuoco),
            58 => Some(Driver::CharlesLeclerc),
            59 => Some(Driver::PierreGasly),
            62 => Some(Driver::AlexanderAlbon),
            63 => Some(Driver::NicholasLatifi),
            64 => Some(Driver::DorianBoccolacci),
            65 => Some(Driver::NikoKari),
            66 => Some(Driver::RobertoMerhi),
            67 => Some(Driver::ArjunMaini),
            68 => Some(Driver::AlessioLorandi),
            69 => Some(Driver::RubenMeijer),
            70 => Some(Driver::RashidNair),
            71 => Some(Driver::JackTremblay),
            74 => Some(Driver::AntonioGiovinazzi),
            75 => Some(Driver::RobertKubica),
            78 => Some(Driver::NobuharuMatsushita),
            79 => Some(Driver::NikitaMazepin),
            80 => Some(Driver::GuanyuZhou),
            81 => Some(Driver::MickSchumacher),
            82 => Some(Driver::CallumIlott),
            83 => Some(Driver::JuanManuelCorrea),
            84 => Some(Driver::JordanKing),
            85 => Some(Driver::MahaveerRaghunathan),
            86 => Some(Driver::TatianaCalderon),
            87 => Some(Driver::AnthoineHubert),
            88 => Some(Driver::GiulianoAlesi),
            89 => Some(Driver::RalphBoschung),
            _ => None,
        }
    }
}

impl TryFromSpecImpl<u8> for Driver {
    open spec fn obeys_try_from_spec() -> bool {
        true
    }

    open spec fn try_from_spec(value: u8) -> Result<Self, Self::Error> {
        match Driver::from_ordinal(value) {
            Some(t) => Ok(t),
            None => Err(ParseError { kind: ErrorKind::InvalidDriver(value), offset: 0 }),
        }
    }
}

impl TryFrom<u8> for Driver {
    type Error = ParseError;

    /// Decodes a wire code. Any other byte is refused, with the error that
    /// carries the byte.
    fn try_from(value: u8) -> (r: Result<Self, Self::Error>)
        ensures
            r == match Driver::from_ordinal(value) {
                Some(decoded) => Ok::<Driver, ParseError>(decoded),
                None => Err::<Driver, ParseError>(
                    ParseError { kind: ErrorKind::InvalidDriver(value), offset: 0 },
                ),
            },
    {
        match value {
            0 => Ok(Self::CarlosSainz),
            1 => Ok(Self::DaniilKvyat),
            2 => Ok(Self::DanielRicciardo),
            6 => Ok(Self::KimiRaikkonen),
            7 => Ok(Self::LewisHamilton),
            9 => Ok(Self::MaxVerstappen),
            10 => Ok(Self::NicoHulkenberg),
            11 => Ok(Self::KevinMagnussen),
            12 => Ok(Self::RomainGrosjean),
            13 => Ok(Self::SebastianVettel),
            14 => Ok(Self::SergioPerez),
            15 => Ok(Self::ValtteriBottas),
            17 => Ok(Self::EstebanOcon),
            19 => Ok(Self::LanceStroll),
            20 => Ok(Self::ArronBarnes),
            21 => Ok(Self::MartinGiles),
            22 => Ok(Self::AlexMurray),
            23 => Ok(Self::LucasRoth),
            24 => Ok(Self::IgorCorreia),
            25 => Ok(Self::SophieLevasseur),
            26 => Ok(Self::JonasSchiffer),
            27 => Ok(Self::AlainForest),
            28 => Ok(Self::JayLetourneau),
            29 => Ok(Self::EstoSaari),
            30 => Ok(Self::YasarAtiyeh),
            31 => Ok(Self::CallistoCalabresi),
            32 => Ok(Self::NaotaIzum),
            33 => Ok(Self::HowardClarke),
            34 => Ok(Self::WilhelmKaufmann),
            35 => Ok(Self::MarieLaursen),
            36 => Ok(Self::FlavioNieves),
            37 => Ok(Self::PeterBelousov),
            38 => Ok(Self::KlimekMichalski),
            39 => Ok(Self::SantiagoMoreno),
            40 => Ok(Self::BenjaminCoppens),
            41 => Ok(Self::NoahVisser),
            42 => Ok(Self::GertWaldmuller),
            43 => Ok(Self::JulianQuesada),
            44 => Ok(Self::DanielJones),
            45 => Ok(Self::ArtemMarkelov),
            46 => Ok(Self::TadasukeMakino),
            47 => Ok(Self::SeanGelael),
            48 => Ok(Self::NyckDeVries),
            49 => Ok(Self::JackAitken),
            50 => Ok(Self::GeorgeRussell),
            51 => Ok(Self::MaximilianGunther),
            52 => Ok(Self::NireiFukuzumi),
            53 => Ok(Self::LucaGhiotto),
            54 => Ok(Self::LandoNorris),
            55 => Ok(Self::SergioSetteCamara),
            56 => Ok(Self::LouisDeletraz),
            57 => Ok(Self::AntonioFuoco),
            58 => Ok(Self::CharlesLeclerc),
            59 => Ok(Self::PierreGasly),
            62 => Ok(Self::AlexanderAlbon),
            63 => Ok(Self::NicholasLatifi),
            64 => Ok(Self::DorianBoccolacci),
            65 => Ok(Self::NikoKari),
            66 => Ok(Self::RobertoMerhi),
            67 => Ok(Self::ArjunMaini),
            68 => Ok(Self::AlessioLorandi),
            69 => Ok(Self::RubenMeijer),
            70 => Ok(Self::RashidNair),
            71 => Ok(Self::JackTremblay),
            74 => Ok(Self::AntonioGiovinazzi),
            75 => Ok(Self::RobertKubica),
            78 => Ok(Self::NobuharuMatsushita),
            79 => Ok(Self::NikitaMazepin),
            80 => Ok(Self::GuanyuZhou),
            81 => Ok(Self::MickSchumacher),
            82 => Ok(Self::CallumIlott),
            83 => Ok(Self::JuanManuelCorrea),
            84 => Ok(Self::JordanKing),
            85 => Ok(Self::MahaveerRaghunathan),
            86 => Ok(Self::TatianaCalderon),
            87 => Ok(Self::AnthoineHubert),
            88 => Ok(Self::GiulianoAlesi),
            89 => Ok(Self::RalphBoschung),
            _ => Err(ParseError::new(ErrorKind::InvalidDriver(value))),
        }
    }
}

/// The teams that the protocol knows by a wire code.
#[derive(Debug, Clone, Copy, PartialEq, Eq, Structural)]
pub enum Team {
    Mercedes,
    Ferrari,
    RedBullRacing,
    Williams,
    RacingPoint,
    Renault,
    AlphaTauri,
    Haas,
    McLaren,
    AlfaRomeo,
    McLaren1988,
    McLaren1991,
    Williams1992,
    Ferrari1995,
    Williams1996,
    McLaren1998,
    Ferrari2002,
    Ferrari2004,
    Renault2006,
    Ferrari2007,
    McLaren2008,
    RedBull2010,
    Ferrari1976,
    ArtGrandPrix,
    CamposVexatecRacing,
    Carlin,
    CharouzRacingSystem,
    Dams,
    RussianTime,
    MpMotorsport,
    Pertamina,
    McLaren1990,
    Trident,
    BwtArden,
    McLaren1976,
    Lotus1972,
    Ferrari1979,
    McLaren1982,
    Williams2003,
    Brawn2009,
    Lotus1978,
    F1GenericCar,
    ArtGrandPrix2019,
    Campos2019,
    Carlin2019,
    SauberJuniorCharouz2019,
    Dams2019,
    UniVirtuosi2019,
    MpMotorsport2019,
    Prema2019,
    Trident2019,
    Arden2019,
    Benetton1994,
    Benetton1995,
    Ferrari2000,
    Jordan1991,
    MyTeam,
}

impl Team {
    /// The value that a wire code stands for.
    pub open spec fn from_ordinal(value: u8) -> Option<Team> {
        match value {
            0 => Some(Team::Mercedes),
            1 => Some(Team::Ferrari),
            2 => Some(Team::RedBullRacing),
            3 => Some(Team::Williams),
            4 => Some(Team::RacingPoint),
            5 => Some(Team::Renault),
            6 => Some(Team::AlphaTauri),
            7 => Some(Team::Haas),
            8 => Some(Team::McLaren),
            9 => Some(Team::AlfaRomeo),
            10 => Some(Team::McLaren1988),
            11 => Some(Team::McLaren1991),
            12 => Some(Team::Williams1992),
            13 => Some(Team::Ferrari1995),
            14 => Some(Team::Williams1996),
            15 => Some(Team::McLaren1998),
            16 => Some(Team::Ferrari2002),
            17 => Some(Team::Ferrari2004),
            18 => Some(Team::Renault2006),
            19 => Some(Team::Ferrari2007),
            20 => Some(Team::McLaren2008),
            21 => Some(Team::RedBull2010),
            22 => Some(Team::Ferrari1976),
            23 => Some(Team::ArtGrandPrix),
            24 => Some(Team::CamposVexatecRacing),
            25 => Some(Team::Carlin),
            26 => Some(Team::CharouzRacingSystem),
            27 => Some(Team::Dams),
            28 => Some(Team::RussianTime),
            29 => Some(Team::MpMotorsport),
            30 => Some(Team::Pertamina),
            31 => Some(Team::McLaren1990),
            32 => Some(Team::Trident),
            33 => Some(Team::BwtArden),
            34 => Some(Team::McLaren1976),
            35 => Some(Team::Lotus1972),
            36 => Some(Team::Ferrari1979),
            37 => Some(Team::McLaren1982),
            38 => Some(Team::Williams2003),
            39 => Some(Team::Brawn2009),
            40 => Some(Team::Lotus1978),
            41 => Some(Team::F1GenericCar),
            42 => Some(Team::ArtGrandPrix2019),
            43 => Some(Team::Campos2019),
            44 => Some(Team::Carlin2019),
            45 => Some(Team::SauberJuniorCharouz2019),
            46 => Some(Team::Dams2019),
            47 => Some(Team::UniVirtuosi2019),
            48 => Some(Team::MpMotorsport2019),
            49 => Some(Team::Prema2019),
            50 => Some(Team::Trident2019),
            51 => Some(Team::Arden2019),
            53 => Some(Team::Benetton1994),
            54 => Some(Team::Benetton1995),
            55 => Some(Team::Ferrari2000),
            56 => Some(Team::Jordan1991),
            255 => Some(Team::MyTeam),
            _ => None,
        }
    }
}

impl TryFromSpecImpl<u8> for Team {
    open spec fn obeys_try_from_spec() -> bool {
        true
    }

    open spec fn try_from_spec(value: u8) -> Result<Self, Self::Error> {
        match Team::from_ordinal(value) {
            Some(t) => Ok(t),
            None => Err(ParseError { kind: ErrorKind::InvalidTeam(value), offset: 0 }),
        }
    }
}

impl TryFrom<u8> for Team {
    type Error = ParseError;

    /// Decodes a wire code. Any other byte is refused, with the error that
    /// carries the byte.
    fn try_from(value: u8) -> (r: Result<Self, Self::Error>)
        ensures
            r == match Team::from_ordinal(value) {
                Some(decoded) => Ok::<Team, ParseError>(decoded),
                None => Err::<Team, ParseError>(
                    ParseError { kind: ErrorKind::InvalidTeam(value), offset: 0 },
                ),
            },
    {
        match value {
            0 => Ok(Self::Mercedes),
            1 => Ok(Self::Ferrari),
            2 => Ok(Self::RedBullRacing),
            3 => Ok(Self::Williams),
            4 => Ok(Self::RacingPoint),
            5 => Ok(Self::Renault),
            6 => Ok(Self::AlphaTauri),
            7 => Ok(Self::Haas),
            8 => Ok(Self::McLaren),
            9 => Ok(Self::AlfaRomeo),
            10 => Ok(Self::McLaren1988),
            11 => Ok(Self::McLaren1991),
            12 => Ok(Self::Williams1992),
            13 => Ok(Self::Ferrari1995),
            14 => Ok(Self::Williams1996),
            15 => Ok(Self::McLaren1998),
            16 => Ok(Self::Ferrari2002),
            17 => Ok(Self::Ferrari2004),
            18 => Ok(Self::Renault2006),
            19 => Ok(Self::Ferrari2007),
            20 => Ok(Self::McLaren2008),
            21 => Ok(Self::RedBull2010),
            22 => Ok(Self::Ferrari1976),
            23 => Ok(Self::ArtGrandPrix),
            24 => Ok(Self::CamposVexatecRacing),
            25 => Ok(Self::Carlin),
            26 => Ok(Self::CharouzRacingSystem),
            27 => Ok(Self::Dams),
            28 => Ok(Self::RussianTime),
            29 => Ok(Self::MpMotorsport),
            30 => Ok(Self::Pertamina),
            31 => Ok(Self::McLaren1990),
            32 => Ok(Self::Trident),
            33 => Ok(Self::BwtArden),
            34 => Ok(Self::McLaren1976),
            35 => Ok(Self::Lotus1972),
            36 => Ok(Self::Ferrari1979),
            37 => Ok(Self::McLaren1982),
            38 => Ok(Self::Williams2003),
            39 => Ok(Self::Brawn2009),
            40 => Ok(Self::Lotus1978),
            41 => Ok(Self::F1GenericCar),
            42 => Ok(Self::ArtGrandPrix2019),
            43 => Ok(Self::Campos2019),
            44 => Ok(Self::Carlin2019),
            45 => Ok(Self::SauberJuniorCharouz2019),
            46 => Ok(Self::Dams2019),
            47 => Ok(Self::UniVirtuosi2019),
            48 => Ok(Self::MpMotorsport2019),
            49 => Ok(Self::Prema2019),
            50 => Ok(Self::Trident2019),
            51 => Ok(Self::Arden2019),
            53 => Ok(Self::Benetton1994),
            54 => Ok(Self::Benetton1995),
            55 => Ok(Self::Ferrari2000),
            56 => Ok(Self::Jordan1991),
            255 => Ok(Self::MyTeam),
            _ => Err(ParseError::new(ErrorKind::InvalidTeam(value))),
        }
    }
}

impl Driver {
    /// Whether a byte is a wire code.
    pub open spec fn is_wire_code(value: u8) -> bool {
        value <= 2
        || 6 <= value <= 7
        || 9 <= value <= 15
        || value == 17
        || 19 <= value <= 59
        || 62 <= value <= 71
        || 74 <= value <= 75
        || 78 <= value <= 89
    }

    /// The wire code that stands for the value.
    pub open spec fn wire_code(self) -> Option<u8> {
        match self {
            Driver::CarlosSainz => Some(0),
            Driver::DaniilKvyat => Some(1),
            Driver::DanielRicciardo => Some(2),
            Driver::KimiRaikkonen => Some(6),
            Driver::LewisHamilton => Some(7),
            Driver::MaxVerstappen => Some(9),
            Driver::NicoHulkenberg => Some(10),
            Driver::KevinMagnussen => Some(11),
            Driver::RomainGrosjean => Some(12),
            Driver::SebastianVettel => Some(13),
            Driver::SergioPerez => Some(14),
            Driver::ValtteriBottas => Some(15),
            Driver::EstebanOcon => Some(17),
            Driver::LanceStroll => Some(19),
            Driver::ArronBarnes => Some(20),
            Driver::MartinGiles => Some(21),
            Driver::AlexMurray => Some(22),
            Driver::LucasRoth => Some(23),
            Driver::IgorCorreia => Some(24),
            Driver::SophieLevasseur => Some(25),
            Driver::JonasSchiffer => Some(26),
            Driver::AlainForest => Some(27),
            Driver::JayLetourneau => Some(28),
            Driver::EstoSaari => Some(29),
            Driver::YasarAtiyeh => Some(30),
            Driver::CallistoCalabresi => Some(31),
            Driver::NaotaIzum => Some(32),
            Driver::HowardClarke => Some(33),
            Driver::WilhelmKaufmann => Some(34),
            Driver::MarieLaursen => Some(35),
            Driver::FlavioNieves => Some(36),
            Driver::PeterBelousov => Some(37),
            Driver::KlimekMichalski => Some(38),
            Driver::SantiagoMoreno => Some(39),
            Driver::BenjaminCoppens => Some(40),
            Driver::NoahVisser => Some(41),
            Driver::GertWaldmuller => Some(42),
            Driver::JulianQuesada => Some(43),
            Driver::DanielJones => Some(44),
            Driver::ArtemMarkelov => Some(45),
            Driver::TadasukeMakino => Some(46),
            Driver::SeanGelael => Some(47),
            Driver::NyckDeVries => Some(48),
            Driver::JackAitken => Some(49),
            Driver::GeorgeRussell => Some(50),
            Driver::MaximilianGunther => Some(51),
            Driver::NireiFukuzumi => Some(52),
            Driver::LucaGhiotto => Some(53),
            Driver::LandoNorris => Some(54),
            Driver::SergioSetteCamara => Some(55),
            Driver::LouisDeletraz => Some(56),
            Driver::AntonioFuoco => Some(57),
            Driver::CharlesLeclerc => Some(58),
            Driver::PierreGasly => Some(59),
            Driver::AlexanderAlbon => Some(62),
            Driver::NicholasLatifi => Some(63),
            Driver::DorianBoccolacci => Some(64),
            Driver::NikoKari => Some(65),
            Driver::RobertoMerhi => Some(66),
            Driver::ArjunMaini => Some(67),
            Driver::AlessioLorandi => Some(68),
            Driver::RubenMeijer => Some(69),
            Driver::RashidNair => Some(70),
            Driver::JackTremblay => Some(71),
            Driver::AntonioGiovinazzi => Some(74),
            Driver::RobertKubica => Some(75),
            Driver::NobuharuMatsushita => Some(78),
            Driver::NikitaMazepin => Some(79),
            Driver::GuanyuZhou => Some(80),
            Driver::MickSchumacher => Some(81),
            Driver::CallumIlott => Some(82),
            Driver::JuanManuelCorrea => Some(83),
            Driver::JordanKing => Some(84),
            Driver::MahaveerRaghunathan => Some(85),
            Driver::TatianaCalderon => Some(86),
            Driver::AnthoineHubert => Some(87),
            Driver::GiulianoAlesi => Some(88),
            Driver::RalphBoschung => Some(89),
        }
    }

    /// Every byte decodes: a wire code to the value that it stands for, and
    /// any other byte to the error that carries the byte.
    pub proof fn lemma_decodes_every_byte(value: u8)
        ensures
            Driver::is_wire_code(value) <==> Driver::from_ordinal(value) is Some,
            <Driver as TryFromSpec<u8>>::try_from_spec(value) == match Driver::from_ordinal(value) {
                Some(decoded) => Ok::<Driver, ParseError>(decoded),
                None => Err::<Driver, ParseError>(
                    ParseError { kind: ErrorKind::InvalidDriver(value), offset: 0 },
                ),
            },
    {
    }

    /// The wire code of a value decodes to the value.
    pub proof fn lemma_wire_code_decodes(self)
        requires
            self.wire_code() is Some,
        ensures
            Driver::from_ordinal(self.wire_code().unwrap()) == Some(self),
    {
    }

    /// A byte that decodes is the wire code of what it decodes to.
    pub proof fn lemma_decoded_has_wire_code(value: u8)
        requires
            Driver::from_ordinal(value) is Some,
        ensures
            Driver::from_ordinal(value).unwrap().wire_code() == Some(value),
    {
    }
}

impl Team {
    /// Whether a byte is a wire code.
    pub open spec fn is_wire_code(value: u8) -> bool {
        value <= 51
        || 53 <= value <= 56
        || value == 255
    }

    /// The wire code that stands for the value.
    pub open spec fn wire_code(self) -> Option<u8> {
        match self {
            Team::Mercedes => Some(0),
            Team::Ferrari => Some(1),
            Team::RedBullRacing => Some(2),
            Team::Williams => Some(3),
            Team::RacingPoint => Some(4),
            Team::Renault => Some(5),
            Team::AlphaTauri => Some(6),
            Team::Haas => Some(7),
            Team::McLaren => Some(8),
            Team::AlfaRomeo => Some(9),
            Team::McLaren1988 => Some(10),
            Team::McLaren1991 => Some(11),
            Team::Williams1992 => Some(12),
            Team::Ferrari1995 => Some(13),
            Team::Williams1996 => Some(14),
            Team::McLaren1998 => Some(15),
            Team::Ferrari2002 => Some(16),
            Team::Ferrari2004 => Some(17),
            Team::Renault2006 => Some(18),
            Team::Ferrari2007 => Some(19),
            Team::McLaren2008 => Some(20),
            Team::RedBull2010 => Some(21),
            Team::Ferrari1976 => Some(22),
            Team::ArtGrandPrix => Some(23),
            Team::CamposVexatecRacing => Some(24),
            Team::Carlin => Some(25),
            Team::CharouzRacingSystem => Some(26),
            Team::Dams => Some(27),
            Team::RussianTime => Some(28),
            Team::MpMotorsport => Some(29),
            Team::Pertamina => Some(30),
            Team::McLaren1990 => Some(31),
            Team::Trident => Some(32),
            Team::BwtArden => Some(33),
            Team::McLaren1976 => Some(34),
            Team::Lotus1972 => Some(35),
            Team::Ferrari1979 => Some(36),
            Team::McLaren1982 => Some(37),
            Team::Williams2003 => Some(38),
            Team::Brawn2009 => Some(39),
            Team::Lotus1978 => Some(40),
            Team::F1GenericCar => Some(41),
            Team::ArtGrandPrix2019 => Some(42),
            Team::Campos2019 => Some(43),
            Team::Carlin2019 => Some(44),
            Team::SauberJuniorCharouz2019 => Some(45),
            Team::Dams2019 => Some(46),
            Team::UniVirtuosi2019 => Some(47),
            Team::MpMotorsport2019 => Some(48),
            Team::Prema2019 => Some(49),
            Team::Trident2019 => Some(50),
            Team::Arden2019 => Some(51),
            Team::Benetton1994 => Some(53),
            Team::Benetton1995 => Some(54),
            Team::Ferrari2000 => Some(55),
            Team::Jordan1991 => Some(56),
            Team::MyTeam => Some(255),
        }
    }

    /// Every byte decodes: a wire code to the value that it stands for, and
    /// any other byte to the error that carries the byte.
    pub proof fn lemma_decodes_every_byte(value: u8)
        ensures
            Team::is_wire_code(value) <==> Team::from_ordinal(value) is Some,
            <Team as TryFromSpec<u8>>::try_from_spec(value) == match Team::from_ordinal(value) {
                Some(decoded) => Ok::<Team, ParseError>(decoded),
                None => Err::<Team, ParseError>(
                    ParseError { kind: ErrorKind::InvalidTeam(value), offset: 0 },
                ),
            },
    {
    }

    /// The wire code of a value decodes to the value.
    pub proof fn lemma_wire_code_decodes(self)
        requires
            self.wire_code() is Some,
        ensures
            Team::from_ordinal(self.wire_code().unwrap()) == Some(self),
    {
    }

    /// A byte that decodes is the wire code of what it decodes to.
    pub proof fn lemma_decoded_has_wire_code(value: u8)
        requires
            Team::from_ordinal(value) is Some,
        ensures
            Team::from_ordinal(value).unwrap().wire_code() == Some(value),
    {
    }
}

} // verus!
