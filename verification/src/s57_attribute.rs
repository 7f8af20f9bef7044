//! The attribute code table: which attribute a numeric code stands for.

use vstd::prelude::*;

verus! {

/// An attribute of a chart feature, named by its acronym.
#[derive(Debug, Clone, Copy, PartialEq, Eq, Hash, Structural)]
#[allow(non_camel_case_types)]
pub enum S57Attribute {
    /// Stands for every code that the table does not list.
    Unknown,
    /// Agency responsible for production
    AGENCY,
    /// Beacon shape
    BCNSHP,
    /// Building shape
    BUISHP,
    /// Buoy shape
    BOYSHP,
    /// Buried depth
    BURDEP,
    /// Call sign
    CALSGN,
    /// Category of airport/airfield
    CATAIR,
    /// Category of anchorage
    CATACH,
    /// Category of bridge
    CATBRG,
    /// Category of built-up area
    CATBUA,
    /// Category of cable
    CATCBL,
    /// Category of canal
    CATCAN,
    /// Category of cardinal mark
    CATCAM,
    /// Category of checkpoint
    CATCHP,
    /// Category of coastline
    CATCOA,
    /// Category of control point
    CATCTR,
    /// Category of conveyor
    CATCON,
    /// Category of coverage
    CATCOV,
    /// Category of crane
    CATCRN,
    /// Category of dam
    CATDAM,
    /// Category of distance mark
    CATDIS,
    /// Category of dock
    CATDOC,
    /// Category of dumping ground
    CATDPG,
    /// Category of fenceline
    CATFNC,
    /// Category of ferry
    CATFRY,
    /// Category of fishing facility
    CATFIF,
    /// Category of fog signal
    CATFOG,
    /// Category of fortified structure
    CATFOR,
    /// Category of gate
    CATGAT,
    /// Category of ice
    CATICE,
    /// Category of installation buoy
    CATINB,
    /// Category of land region
    CATLND,
    /// Category of landmark
    CATLMK,
    /// Category of lateral mark
    CATLAM,
    /// Category of light
    CATLIT,
    /// Category of marine farm/culture
    CATMFA,
    /// Category of military practice area
    CATMPA,
    /// Category of mooring/warping facility
    CATMOR,
    /// Category of obstruction
    CATOBS,
    /// Category of offshore platform
    CATOFP,
    /// Category of oil barrier
    CATOLB,
    /// Category of pile
    CATPLE,
    /// Category of pilot boarding place
    CATPIL,
    /// Category of pipeline/pipe
    CATPIP,
    /// Category of production area
    CATPRA,
    /// Category of pylon
    CATPYL,
    /// Category of quality of data
    CATQUA,
    /// Category of radar station
    CATRAS,
    /// Category of radar transponder beacon
    CATRTB,
    /// Category of radio station
    CATROS,
    /// Category of recommended track
    CATTRK,
    /// Category of rescue station
    CATRSC,
    /// Category of restricted area
    CATREA,
    /// Category of road
    CATROD,
    /// Category of runway
    CATRUN,
    /// Category of sea area
    CATSEA,
    /// Category of shoreline construction
    CATSLC,
    /// Category of signal station, traffic
    CATSIT,
    /// Category of signal station, warning
    CATSIW,
    /// Category of silo/tank
    CATSIL,
    /// Category of slope
    CATSLO,
    /// Category of small craft facility
    CATSCF,
    /// Category of special purpose mark
    CATSPM,
    /// Category of Tidal Stream
    CAT_TS,
    /// Category of Traffic Separation Scheme
    CATTSS,
    /// Category of vegetation
    CATVEG,
    /// Category of water turbulence
    CATWAT,
    /// Category of weed/kelp
    CATWED,
    /// Category of wreck
    CATWRK,
    /// Character spacing
    SPACE,
    /// Character specification
    CHARS,
    /// Colour
    COLOUR,
    /// Colour pattern
    COLPAT,
    /// Communication channel
    COMCHA,
    /// Compass size
    CSIZE,
    /// Compilation date
    CPDATE,
    /// Compilation scale
    CSCALE,
    /// Condition
    CONDTN,
    /// Conspicuous, radar
    CONRAD,
    /// Conspicuous, visually
    CONVIS,
    /// Current velocity
    CURVEL,
    /// Date end
    DATEND,
    /// Date start
    DATSTA,
    /// Depth range value 1
    DRVAL1,
    /// Depth range value 2
    DRVAL2,
    /// Depth units
    DUNITS,
    /// Elevation
    ELEVAT,
    /// Estimated range of transmission
    ESTRNG,
    /// Exposition of sounding
    EXPSOU,
    /// Function
    FUNCTN,
    /// Height
    HEIGHT,
    /// Height/length units
    HUNITS,
    /// Horizontal accuracy
    HORACC,
    /// Horizontal clearance
    HORCLR,
    /// Horizontal length
    HORLEN,
    /// Horizontal width
    HORWID,
    /// Ice factor
    ICEFAC,
    /// Information
    INFORM,
    /// Jurisdiction
    JRSDTN,
    /// Justification - horizontal
    JUSTH,
    /// Justification - vertical
    JUSTV,
    /// Lifting capacity
    LIFCAP,
    /// Light characteristic
    LITCHR,
    /// Light visibility
    LITVIS,
    /// Marks navigational - System of
    MARSYS,
    /// Multiplicity of lights
    MLTYLT,
    /// Nationality
    NATION,
    /// Nature of construction
    NATCON,
    /// Nature of surface
    NATSUR,
    /// Nature of surface - qualifying terms
    NATQUA,
    /// Notice to Mariners date
    NMDATE,
    /// Object name
    OBJNAM,
    /// Orientation
    ORIENT,
    /// Periodic date end
    PEREND,
    /// Periodic date start
    PERSTA,
    /// Pictorial representation
    PICREP,
    /// Pilot district
    PILDST,
    /// Positional accuracy units
    PUNITS,
    /// Producing country
    PRCTRY,
    /// Product
    PRODCT,
    /// Publication reference
    PUBREF,
    /// Quality of sounding measurement
    QUASOU,
    /// Radar wave length
    RADWAL,
    /// Radius
    RADIUS,
    /// Recording date
    RECDAT,
    /// Recording indication
    RECIND,
    /// Reference year for magnetic variation
    RYRMGV,
    /// Restriction
    RESTRN,
    /// Scale maximum
    SCAMAX,
    /// Scale minimum
    SCAMIN,
    /// Scale value one
    SCVAL1,
    /// Scale value two
    SCVAL2,
    /// Sector limit one
    SECTR1,
    /// Sector limit two
    SECTR2,
    /// Shift parameters
    SHIPAM,
    /// Signal frequency
    SIGFRQ,
    /// Signal generation
    SIGGEN,
    /// Signal group
    SIGGRP,
    /// Signal period
    SIGPER,
    /// Signal sequence
    SIGSEQ,
    /// Sounding accuracy
    SOUACC,
    /// Sounding distance - maximum
    SDISMX,
    /// Sounding distance - minimum
    SDISMN,
    /// Source date
    SORDAT,
    /// Source indication
    SORIND,
    /// Status
    STATUS,
    /// Survey date - end
    SUREND,
    /// Survey date - start
    SURSTA,
    /// Survey type
    SURTYP,
    /// Symbol scaling factor
    SCALE,
    /// Symbolization code
    SCODE,
    /// Technique of sounding measurement
    TECSOU,
    /// Text string
    TXSTR,
    /// Textual description
    TXTDSC,
    /// Tidal stream - panel values
    TS_TSP,
    /// Tidal stream - time series values
    TS_TSV,
    /// Tide - accuracy of water level
    T_ACWL,
    /// Tide - high and low water values
    T_HWLW,
    /// Tide - method of tidal prediction
    T_MTOD,
    /// Tide - time and height differences
    T_THDF,
    /// Tide - time series values
    T_TSVL,
    /// Tide - value of harmonic constituents
    T_VAHC,
    /// Tide - time interval of values
    T_TINT,
    /// Time end
    TIMEND,
    /// Time start
    TIMSTA,
    /// Tint
    TINTS,
    /// Topmark/daymark shape
    TOPSHP,
    /// Traffic flow
    TRAFIC,
    /// Value of annual change in magnetic variation
    VALACM,
    /// Value of depth contour
    VALDCO,
    /// Value of local magnetic anomaly
    VALLMA,
    /// Value of magnetic variation
    VALMAG,
    /// Value of maximum range
    VALMXR,
    /// Value of nominal range
    VALNMR,
    /// Value of sounding
    VALSOU,
    /// Vertical accuracy
    VERACC,
    /// Vertical clearance
    VERCLR,
    /// Vertical clearance, closed
    VERCCL,
    /// Vertical clearance, open
    VERCOP,
    /// Vertical clearance, safe
    VERCSA,
    /// Vertical datum
    VERDAT,
    /// Vertical length
    VERLEN,
    /// Water level effect
    WATLEV,
    /// Information in national language
    NINFOM,
    /// Object name in national language
    NOBJNM,
    /// Pilot district in national language
    NPLDST,
    /// Text string in national language
    NTXST,
    /// Textual description in national language
    NTXTDS,
    /// Horizontal datum
    HORDAT,
    /// Positional Accuracy
    POSACC,
    /// Quality of position
    QUAPOS,
}

impl S57Attribute {
    /// The code under which the table lists this entry; `Unknown` has code 0.
    pub open spec fn spec_type_code(self) -> int {
        match self {
            S57Attribute::Unknown => 0,
            S57Attribute::AGENCY => 1,
            S57Attribute::BCNSHP => 2,
            S57Attribute::BUISHP => 3,
            S57Attribute::BOYSHP => 4,
            S57Attribute::BURDEP => 5,
            S57Attribute::CALSGN => 6,
            S57Attribute::CATAIR => 7,
            S57Attribute::CATACH => 8,
            S57Attribute::CATBRG => 9,
            S57Attribute::CATBUA => 10,
            S57Attribute::CATCBL => 11,
            S57Attribute::CATCAN => 12,
            S57Attribute::CATCAM => 13,
            S57Attribute::CATCHP => 14,
            S57Attribute::CATCOA => 15,
            S57Attribute::CATCTR => 16,
            S57Attribute::CATCON => 17,
            S57Attribute::CATCOV => 18,
            S57Attribute::CATCRN => 19,
            S57Attribute::CATDAM => 20,
            S57Attribute::CATDIS => 21,
            S57Attribute::CATDOC => 22,
            S57Attribute::CATDPG => 23,
            S57Attribute::CATFNC => 24,
            S57Attribute::CATFRY => 25,
            S57Attribute::CATFIF => 26,
            S57Attribute::CATFOG => 27,
            S57Attribute::CATFOR => 28,
            S57Attribute::CATGAT => 29,
            S57Attribute::CATICE => 32,
            S57Attribute::CATINB => 33,
            S57Attribute::CATLND => 34,
            S57Attribute::CATLMK => 35,
            S57Attribute::CATLAM => 36,
            S57Attribute::CATLIT => 37,
            S57Attribute::CATMFA => 38,
            S57Attribute::CATMPA => 39,
            S57Attribute::CATMOR => 40,
            S57Attribute::CATOBS => 42,
            S57Attribute::CATOFP => 43,
            S57Attribute::CATOLB => 44,
            S57Attribute::CATPLE => 45,
            S57Attribute::CATPIL => 46,
            S57Attribute::CATPIP => 47,
            S57Attribute::CATPRA => 48,
            S57Attribute::CATPYL => 49,
            S57Attribute::CATQUA => 50,
            S57Attribute::CATRAS => 51,
            S57Attribute::CATRTB => 52,
            S57Attribute::CATROS => 53,
            S57Attribute::CATTRK => 54,
            S57Attribute::CATRSC => 55,
            S57Attribute::CATREA => 56,
            S57Attribute::CATROD => 57,
            S57Attribute::CATRUN => 58,
            S57Attribute::CATSEA => 59,
            S57Attribute::CATSLC => 60,
            S57Attribute::CATSIT => 61,
            S57Attribute::CATSIW => 62,
            S57Attribute::CATSIL => 63,
            S57Attribute::CATSLO => 64,
            S57Attribute::CATSCF => 65,
            S57Attribute::CATSPM => 66,
            S57Attribute::CAT_TS => 188,
            S57Attribute::CATTSS => 67,
            S57Attribute::CATVEG => 68,
            S57Attribute::CATWAT => 69,
            S57Attribute::CATWED => 70,
            S57Attribute::CATWRK => 71,
            S57Attribute::SPACE => 73,
            S57Attribute::CHARS => 74,
            S57Attribute::COLOUR => 75,
            S57Attribute::COLPAT => 76,
            S57Attribute::COMCHA => 77,
            S57Attribute::CSIZE => 78,
            S57Attribute::CPDATE => 79,
            S57Attribute::CSCALE => 80,
            S57Attribute::CONDTN => 81,
            S57Attribute::CONRAD => 82,
            S57Attribute::CONVIS => 83,
            S57Attribute::CURVEL => 84,
            S57Attribute::DATEND => 85,
            S57Attribute::DATSTA => 86,
            S57Attribute::DRVAL1 => 87,
            S57Attribute::DRVAL2 => 88,
            S57Attribute::DUNITS => 89,
            S57Attribute::ELEVAT => 90,
            S57Attribute::ESTRNG => 91,
            S57Attribute::EXPSOU => 93,
            S57Attribute::FUNCTN => 94,
            S57Attribute::HEIGHT => 95,
            S57Attribute::HUNITS => 96,
            S57Attribute::HORACC => 97,
            S57Attribute::HORCLR => 98,
            S57Attribute::HORLEN => 99,
            S57Attribute::HORWID => 100,
            S57Attribute::ICEFAC => 101,
            S57Attribute::INFORM => 102,
            S57Attribute::JRSDTN => 103,
            S57Attribute::JUSTH => 104,
            S57Attribute::JUSTV => 105,
            S57Attribute::LIFCAP => 106,
            S57Attribute::LITCHR => 107,
            S57Attribute::LITVIS => 108,
            S57Attribute::MARSYS => 109,
            S57Attribute::MLTYLT => 110,
            S57Attribute::NATION => 111,
            S57Attribute::NATCON => 112,
            S57Attribute::NATSUR => 113,
            S57Attribute::NATQUA => 114,
            S57Attribute::NMDATE => 115,
            S57Attribute::OBJNAM => 116,
            S57Attribute::ORIENT => 117,
            S57Attribute::PEREND => 118,
            S57Attribute::PERSTA => 119,
            S57Attribute::PICREP => 120,
            S57Attribute::PILDST => 121,
            S57Attribute::PUNITS => 189,
            S57Attribute::PRCTRY => 122,
            S57Attribute::PRODCT => 123,
            S57Attribute::PUBREF => 124,
            S57Attribute::QUASOU => 125,
            S57Attribute::RADWAL => 126,
            S57Attribute::RADIUS => 127,
            S57Attribute::RECDAT => 128,
            S57Attribute::RECIND => 129,
            S57Attribute::RYRMGV => 130,
            S57Attribute::RESTRN => 131,
            S57Attribute::SCAMAX => 132,
            S57Attribute::SCAMIN => 133,
            S57Attribute::SCVAL1 => 134,
            S57Attribute::SCVAL2 => 135,
            S57Attribute::SECTR1 => 136,
            S57Attribute::SECTR2 => 137,
            S57Attribute::SHIPAM => 138,
            S57Attribute::SIGFRQ => 139,
            S57Attribute::SIGGEN => 140,
            S57Attribute::SIGGRP => 141,
            S57Attribute::SIGPER => 142,
            S57Attribute::SIGSEQ => 143,
            S57Attribute::SOUACC => 144,
            S57Attribute::SDISMX => 145,
            S57Attribute::SDISMN => 146,
            S57Attribute::SORDAT => 147,
            S57Attribute::SORIND => 148,
            S57Attribute::STATUS => 149,
            S57Attribute::SUREND => 151,
            S57Attribute::SURSTA => 152,
            S57Attribute::SURTYP => 153,
            S57Attribute::SCALE => 154,
            S57Attribute::SCODE => 155,
            S57Attribute::TECSOU => 156,
            S57Attribute::TXSTR => 157,
            S57Attribute::TXTDSC => 158,
            S57Attribute::TS_TSP => 159,
            S57Attribute::TS_TSV => 160,
            S57Attribute::T_ACWL => 161,
            S57Attribute::T_HWLW => 162,
            S57Attribute::T_MTOD => 163,
            S57Attribute::T_THDF => 164,
            S57Attribute::T_TSVL => 166,
            S57Attribute::T_VAHC => 167,
            S57Attribute::T_TINT => 165,
            S57Attribute::TIMEND => 168,
            S57Attribute::TIMSTA => 169,
            S57Attribute::TINTS => 170,
            S57Attribute::TOPSHP => 171,
            S57Attribute::TRAFIC => 172,
            S57Attribute::VALACM => 173,
            S57Attribute::VALDCO => 174,
            S57Attribute::VALLMA => 175,
            S57Attribute::VALMAG => 176,
            S57Attribute::VALMXR => 177,
            S57Attribute::VALNMR => 178,
            S57Attribute::VALSOU => 179,
            S57Attribute::VERACC => 180,
            S57Attribute::VERCLR => 181,
            S57Attribute::VERCCL => 182,
            S57Attribute::VERCOP => 183,
            S57Attribute::VERCSA => 184,
            S57Attribute::VERDAT => 185,
            S57Attribute::VERLEN => 186,
            S57Attribute::WATLEV => 187,
            S57Attribute::NINFOM => 300,
            S57Attribute::NOBJNM => 301,
            S57Attribute::NPLDST => 302,
            S57Attribute::NTXST => 303,
            S57Attribute::NTXTDS => 304,
            S57Attribute::HORDAT => 400,
            S57Attribute::POSACC => 401,
            S57Attribute::QUAPOS => 402,
        }
    }

    /// Whether some entry of the table has this code.
    pub open spec fn is_listed(code: int) -> bool {
        exists|entry: S57Attribute| #[trigger] entry.spec_type_code() == code
    }

    /// The entry with this code, and `Unknown` where the table has none.
    pub open spec fn spec_from_type_code(code: int) -> S57Attribute {
        if Self::is_listed(code) {
            choose|entry: S57Attribute| #[trigger] entry.spec_type_code() == code
        } else {
            S57Attribute::Unknown
        }
    }

    /// No two entries share a code.
    pub proof fn lemma_type_code_injective(a: S57Attribute, b: S57Attribute)
        requires
            a.spec_type_code() == b.spec_type_code(),
        ensures
            a == b,
    {
    }

    /// Looking up the code of an entry gives that entry back.
    pub proof fn lemma_from_type_code_of_code(entry: S57Attribute)
        ensures
            Self::spec_from_type_code(entry.spec_type_code()) == entry,
    {
        let code = entry.spec_type_code();
        assert(Self::is_listed(code));
        Self::lemma_type_code_injective(Self::spec_from_type_code(code), entry);
    }

    /// A lookup gives an entry with the code asked for, or `Unknown`.
    pub proof fn lemma_code_of_from_type_code(code: int)
        ensures
            Self::is_listed(code) ==> Self::spec_from_type_code(code).spec_type_code() == code,
            !Self::is_listed(code) ==> Self::spec_from_type_code(code) == S57Attribute::Unknown,
    {
    }

    /// The code of this entry.
    pub fn type_code(&self) -> (code: i32)
        ensures
            code == self.spec_type_code(),
    {
        match self {
            S57Attribute::Unknown => 0,
            S57Attribute::AGENCY => 1,
            S57Attribute::BCNSHP => 2,
            S57Attribute::BUISHP => 3,
            S57Attribute::BOYSHP => 4,
            S57Attribute::BURDEP => 5,
            S57Attribute::CALSGN => 6,
            S57Attribute::CATAIR => 7,
            S57Attribute::CATACH => 8,
            S57Attribute::CATBRG => 9,
            S57Attribute::CATBUA => 10,
            S57Attribute::CATCBL => 11,
            S57Attribute::CATCAN => 12,
            S57Attribute::CATCAM => 13,
            S57Attribute::CATCHP => 14,
            S57Attribute::CATCOA => 15,
            S57Attribute::CATCTR => 16,
            S57Attribute::CATCON => 17,
            S57Attribute::CATCOV => 18,
            S57Attribute::CATCRN => 19,
            S57Attribute::CATDAM => 20,
            S57Attribute::CATDIS => 21,
            S57Attribute::CATDOC => 22,
            S57Attribute::CATDPG => 23,
            S57Attribute::CATFNC => 24,
            S57Attribute::CATFRY => 25,
            S57Attribute::CATFIF => 26,
            S57Attribute::CATFOG => 27,
            S57Attribute::CATFOR => 28,
            S57Attribute::CATGAT => 29,
            S57Attribute::CATICE => 32,
            S57Attribute::CATINB => 33,
            S57Attribute::CATLND => 34,
            S57Attribute::CATLMK => 35,
            S57Attribute::CATLAM => 36,
            S57Attribute::CATLIT => 37,
            S57Attribute::CATMFA => 38,
            S57Attribute::CATMPA => 39,
            S57Attribute::CATMOR => 40,
            S57Attribute::CATOBS => 42,
            S57Attribute::CATOFP => 43,
            S57Attribute::CATOLB => 44,
            S57Attribute::CATPLE => 45,
            S57Attribute::CATPIL => 46,
            S57Attribute::CATPIP => 47,
            S57Attribute::CATPRA => 48,
            S57Attribute::CATPYL => 49,
            S57Attribute::CATQUA => 50,
            S57Attribute::CATRAS => 51,
            S57Attribute::CATRTB => 52,
            S57Attribute::CATROS => 53,
            S57Attribute::CATTRK => 54,
            S57Attribute::CATRSC => 55,
            S57Attribute::CATREA => 56,
            S57Attribute::CATROD => 57,
            S57Attribute::CATRUN => 58,
            S57Attribute::CATSEA => 59,
            S57Attribute::CATSLC => 60,
            S57Attribute::CATSIT => 61,
            S57Attribute::CATSIW => 62,
            S57Attribute::CATSIL => 63,
            S57Attribute::CATSLO => 64,
            S57Attribute::CATSCF => 65,
            S57Attribute::CATSPM => 66,
            S57Attribute::CAT_TS => 188,
            S57Attribute::CATTSS => 67,
            S57Attribute::CATVEG => 68,
            S57Attribute::CATWAT => 69,
            S57Attribute::CATWED => 70,
            S57Attribute::CATWRK => 71,
            S57Attribute::SPACE => 73,
            S57Attribute::CHARS => 74,
            S57Attribute::COLOUR => 75,
            S57Attribute::COLPAT => 76,
            S57Attribute::COMCHA => 77,
            S57Attribute::CSIZE => 78,
            S57Attribute::CPDATE => 79,
            S57Attribute::CSCALE => 80,
            S57Attribute::CONDTN => 81,
            S57Attribute::CONRAD => 82,
            S57Attribute::CONVIS => 83,
            S57Attribute::CURVEL => 84,
            S57Attribute::DATEND => 85,
            S57Attribute::DATSTA => 86,
            S57Attribute::DRVAL1 => 87,
            S57Attribute::DRVAL2 => 88,
            S57Attribute::DUNITS => 89,
            S57Attribute::ELEVAT => 90,
            S57Attribute::ESTRNG => 91,
            S57Attribute::EXPSOU => 93,
            S57Attribute::FUNCTN => 94,
            S57Attribute::HEIGHT => 95,
            S57Attribute::HUNITS => 96,
            S57Attribute::HORACC => 97,
            S57Attribute::HORCLR => 98,
            S57Attribute::HORLEN => 99,
            S57Attribute::HORWID => 100,
            S57Attribute::ICEFAC => 101,
            S57Attribute::INFORM => 102,
            S57Attribute::JRSDTN => 103,
            S57Attribute::JUSTH => 104,
            S57Attribute::JUSTV => 105,
            S57Attribute::LIFCAP => 106,
            S57Attribute::LITCHR => 107,
            S57Attribute::LITVIS => 108,
            S57Attribute::MARSYS => 109,
            S57Attribute::MLTYLT => 110,
            S57Attribute::NATION => 111,
            S57Attribute::NATCON => 112,
            S57Attribute::NATSUR => 113,
            S57Attribute::NATQUA => 114,
            S57Attribute::NMDATE => 115,
            S57Attribute::OBJNAM => 116,
            S57Attribute::ORIENT => 117,
            S57Attribute::PEREND => 118,
            S57Attribute::PERSTA => 119,
            S57Attribute::PICREP => 120,
            S57Attribute::PILDST => 121,
            S57Attribute::PUNITS => 189,
            S57Attribute::PRCTRY => 122,
            S57Attribute::PRODCT => 123,
            S57Attribute::PUBREF => 124,
            S57Attribute::QUASOU => 125,
            S57Attribute::RADWAL => 126,
            S57Attribute::RADIUS => 127,
            S57Attribute::RECDAT => 128,
            S57Attribute::RECIND => 129,
            S57Attribute::RYRMGV => 130,
            S57Attribute::RESTRN => 131,
            S57Attribute::SCAMAX => 132,
            S57Attribute::SCAMIN => 133,
            S57Attribute::SCVAL1 => 134,
            S57Attribute::SCVAL2 => 135,
            S57Attribute::SECTR1 => 136,
            S57Attribute::SECTR2 => 137,
            S57Attribute::SHIPAM => 138,
            S57Attribute::SIGFRQ => 139,
            S57Attribute::SIGGEN => 140,
            S57Attribute::SIGGRP => 141,
            S57Attribute::SIGPER => 142,
            S57Attribute::SIGSEQ => 143,
            S57Attribute::SOUACC => 144,
            S57Attribute::SDISMX => 145,
            S57Attribute::SDISMN => 146,
            S57Attribute::SORDAT => 147,
            S57Attribute::SORIND => 148,
            S57Attribute::STATUS => 149,
            S57Attribute::SUREND => 151,
            S57Attribute::SURSTA => 152,
            S57Attribute::SURTYP => 153,
            S57Attribute::SCALE => 154,
            S57Attribute::SCODE => 155,
            S57Attribute::TECSOU => 156,
            S57Attribute::TXSTR => 157,
            S57Attribute::TXTDSC => 158,
            S57Attribute::TS_TSP => 159,
            S57Attribute::TS_TSV => 160,
            S57Attribute::T_ACWL => 161,
            S57Attribute::T_HWLW => 162,
            S57Attribute::T_MTOD => 163,
            S57Attribute::T_THDF => 164,
            S57Attribute::T_TSVL => 166,
            S57Attribute::T_VAHC => 167,
            S57Attribute::T_TINT => 165,
            S57Attribute::TIMEND => 168,
            S57Attribute::TIMSTA => 169,
            S57Attribute::TINTS => 170,
            S57Attribute::TOPSHP => 171,
            S57Attribute::TRAFIC => 172,
            S57Attribute::VALACM => 173,
            S57Attribute::VALDCO => 174,
            S57Attribute::VALLMA => 175,
            S57Attribute::VALMAG => 176,
            S57Attribute::VALMXR => 177,
            S57Attribute::VALNMR => 178,
            S57Attribute::VALSOU => 179,
            S57Attribute::VERACC => 180,
            S57Attribute::VERCLR => 181,
            S57Attribute::VERCCL => 182,
            S57Attribute::VERCOP => 183,
            S57Attribute::VERCSA => 184,
            S57Attribute::VERDAT => 185,
            S57Attribute::VERLEN => 186,
            S57Attribute::WATLEV => 187,
            S57Attribute::NINFOM => 300,
            S57Attribute::NOBJNM => 301,
            S57Attribute::NPLDST => 302,
            S57Attribute::NTXST => 303,
            S57Attribute::NTXTDS => 304,
            S57Attribute::HORDAT => 400,
            S57Attribute::POSACC => 401,
            S57Attribute::QUAPOS => 402,
        }
    }

    /// Resolves a code to its entry. The mapping is total: a code that the
    /// table does not list resolves to `Unknown`.
    pub fn from_type_code(type_code: i32) -> (entry: S57Attribute)
        ensures
            entry == Self::spec_from_type_code(type_code as int),
    {
        let entry = match type_code {
            1 => S57Attribute::AGENCY,
            2 => S57Attribute::BCNSHP,
            3 => S57Attribute::BUISHP,
            4 => S57Attribute::BOYSHP,
            5 => S57Attribute::BURDEP,
            6 => S57Attribute::CALSGN,
            7 => S57Attribute::CATAIR,
            8 => S57Attribute::CATACH,
            9 => S57Attribute::CATBRG,
            10 => S57Attribute::CATBUA,
            11 => S57Attribute::CATCBL,
            12 => S57Attribute::CATCAN,
            13 => S57Attribute::CATCAM,
            14 => S57Attribute::CATCHP,
            15 => S57Attribute::CATCOA,
            16 => S57Attribute::CATCTR,
            17 => S57Attribute::CATCON,
            18 => S57Attribute::CATCOV,
            19 => S57Attribute::CATCRN,
            20 => S57Attribute::CATDAM,
            21 => S57Attribute::CATDIS,
            22 => S57Attribute::CATDOC,
            23 => S57Attribute::CATDPG,
            24 => S57Attribute::CATFNC,
            25 => S57Attribute::CATFRY,
            26 => S57Attribute::CATFIF,
            27 => S57Attribute::CATFOG,
            28 => S57Attribute::CATFOR,
            29 => S57Attribute::CATGAT,
            32 => S57Attribute::CATICE,
            33 => S57Attribute::CATINB,
            34 => S57Attribute::CATLND,
            35 => S57Attribute::CATLMK,
            36 => S57Attribute::CATLAM,
            37 => S57Attribute::CATLIT,
            38 => S57Attribute::CATMFA,
            39 => S57Attribute::CATMPA,
            40 => S57Attribute::CATMOR,
            42 => S57Attribute::CATOBS,
            43 => S57Attribute::CATOFP,
            44 => S57Attribute::CATOLB,
            45 => S57Attribute::CATPLE,
            46 => S57Attribute::CATPIL,
            47 => S57Attribute::CATPIP,
            48 => S57Attribute::CATPRA,
            49 => S57Attribute::CATPYL,
            50 => S57Attribute::CATQUA,
            51 => S57Attribute::CATRAS,
            52 => S57Attribute::CATRTB,
            53 => S57Attribute::CATROS,
            54 => S57Attribute::CATTRK,
            55 => S57Attribute::CATRSC,
            56 => S57Attribute::CATREA,
            57 => S57Attribute::CATROD,
            58 => S57Attribute::CATRUN,
            59 => S57Attribute::CATSEA,
            60 => S57Attribute::CATSLC,
            61 => S57Attribute::CATSIT,
            62 => S57Attribute::CATSIW,
            63 => S57Attribute::CATSIL,
            64 => S57Attribute::CATSLO,
            65 => S57Attribute::CATSCF,
            66 => S57Attribute::CATSPM,
            67 => S57Attribute::CATTSS,
            68 => S57Attribute::CATVEG,
            69 => S57Attribute::CATWAT,
            70 => S57Attribute::CATWED,
            71 => S57Attribute::CATWRK,
            73 => S57Attribute::SPACE,
            74 => S57Attribute::CHARS,
            75 => S57Attribute::COLOUR,
            76 => S57Attribute::COLPAT,
            77 => S57Attribute::COMCHA,
            78 => S57Attribute::CSIZE,
            79 => S57Attribute::CPDATE,
            80 => S57Attribute::CSCALE,
            81 => S57Attribute::CONDTN,
            82 => S57Attribute::CONRAD,
            83 => S57Attribute::CONVIS,
            84 => S57Attribute::CURVEL,
            85 => S57Attribute::DATEND,
            86 => S57Attribute::DATSTA,
            87 => S57Attribute::DRVAL1,
            88 => S57Attribute::DRVAL2,
            89 => S57Attribute::DUNITS,
            90 => S57Attribute::ELEVAT,
            91 => S57Attribute::ESTRNG,
            93 => S57Attribute::EXPSOU,
            94 => S57Attribute::FUNCTN,
            95 => S57Attribute::HEIGHT,
            96 => S57Attribute::HUNITS,
            97 => S57Attribute::HORACC,
            98 => S57Attribute::HORCLR,
            99 => S57Attribute::HORLEN,
            100 => S57Attribute::HORWID,
            101 => S57Attribute::ICEFAC,
            102 => S57Attribute::INFORM,
            103 => S57Attribute::JRSDTN,
            104 => S57Attribute::JUSTH,
            105 => S57Attribute::JUSTV,
            106 => S57Attribute::LIFCAP,
            107 => S57Attribute::LITCHR,
            108 => S57Attribute::LITVIS,
            109 => S57Attribute::MARSYS,
            110 => S57Attribute::MLTYLT,
            111 => S57Attribute::NATION,
            112 => S57Attribute::NATCON,
            113 => S57Attribute::NATSUR,
            114 => S57Attribute::NATQUA,
            115 => S57Attribute::NMDATE,
            116 => S57Attribute::OBJNAM,
            117 => S57Attribute::ORIENT,
            118 => S57Attribute::PEREND,
            119 => S57Attribute::PERSTA,
            120 => S57Attribute::PICREP,
            121 => S57Attribute::PILDST,
            122 => S57Attribute::PRCTRY,
            123 => S57Attribute::PRODCT,
            124 => S57Attribute::PUBREF,
            125 => S57Attribute::QUASOU,
            126 => S57Attribute::RADWAL,
            127 => S57Attribute::RADIUS,
            128 => S57Attribute::RECDAT,
            129 => S57Attribute::RECIND,
            130 => S57Attribute::RYRMGV,
            131 => S57Attribute::RESTRN,
            132 => S57Attribute::SCAMAX,
            133 => S57Attribute::SCAMIN,
            134 => S57Attribute::SCVAL1,
            135 => S57Attribute::SCVAL2,
            136 => S57Attribute::SECTR1,
            137 => S57Attribute::SECTR2,
            138 => S57Attribute::SHIPAM,
            139 => S57Attribute::SIGFRQ,
            140 => S57Attribute::SIGGEN,
            141 => S57Attribute::SIGGRP,
            142 => S57Attribute::SIGPER,
            143 => S57Attribute::SIGSEQ,
            144 => S57Attribute::SOUACC,
            145 => S57Attribute::SDISMX,
            146 => S57Attribute::SDISMN,
            147 => S57Attribute::SORDAT,
            148 => S57Attribute::SORIND,
            149 => S57Attribute::STATUS,
            151 => S57Attribute::SUREND,
            152 => S57Attribute::SURSTA,
            153 => S57Attribute::SURTYP,
            154 => S57Attribute::SCALE,
            155 => S57Attribute::SCODE,
            156 => S57Attribute::TECSOU,
            157 => S57Attribute::TXSTR,
            158 => S57Attribute::TXTDSC,
            159 => S57Attribute::TS_TSP,
            160 => S57Attribute::TS_TSV,
            161 => S57Attribute::T_ACWL,
            162 => S57Attribute::T_HWLW,
            163 => S57Attribute::T_MTOD,
            164 => S57Attribute::T_THDF,
            165 => S57Attribute::T_TINT,
            166 => S57Attribute::T_TSVL,
            167 => S57Attribute::T_VAHC,
            168 => S57Attribute::TIMEND,
            169 => S57Attribute::TIMSTA,
            170 => S57Attribute::TINTS,
            171 => S57Attribute::TOPSHP,
            172 => S57Attribute::TRAFIC,
            173 => S57Attribute::VALACM,
            174 => S57Attribute::VALDCO,
            175 => S57Attribute::VALLMA,
            176 => S57Attribute::VALMAG,
            177 => S57Attribute::VALMXR,
            178 => S57Attribute::VALNMR,
            179 => S57Attribute::VALSOU,
            180 => S57Attribute::VERACC,
            181 => S57Attribute::VERCLR,
            182 => S57Attribute::VERCCL,
            183 => S57Attribute::VERCOP,
            184 => S57Attribute::VERCSA,
            185 => S57Attribute::VERDAT,
            186 => S57Attribute::VERLEN,
            187 => S57Attribute::WATLEV,
            188 => S57Attribute::CAT_TS,
            189 => S57Attribute::PUNITS,
            300 => S57Attribute::NINFOM,
            301 => S57Attribute::NOBJNM,
            302 => S57Attribute::NPLDST,
            303 => S57Attribute::NTXST,
            304 => S57Attribute::NTXTDS,
            400 => S57Attribute::HORDAT,
            401 => S57Attribute::POSACC,
            402 => S57Attribute::QUAPOS,
            _ => S57Attribute::Unknown,
        };
        proof {
            if entry.spec_type_code() == type_code {
                Self::lemma_from_type_code_of_code(entry);
            } else {
                assert forall|other: S57Attribute| other.spec_type_code() != type_code by {}
            }
        }
        entry
    }
}

} // verus!
