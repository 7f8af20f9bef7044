//! The feature code table: which class of feature a numeric code stands for.

use vstd::prelude::*;

verus! {

/// The class of a chart feature, named by its acronym.
#[derive(Debug, Clone, Copy, PartialEq, Eq, Hash, Structural)]
#[allow(non_camel_case_types)]
pub enum S57Type {
    /// Stands for every code that the table does not list.
    Unknown,
    /// Administration Area (Named)
    ADMARE,
    /// Airport/airfield
    AIRARE,
    /// Anchor berth
    ACHBRT,
    /// Anchorage area
    ACHARE,
    /// Beacon, cardinal
    BCNCAR,
    /// Beacon, isolated danger
    BCNISD,
    /// Beacon, lateral
    BCNLAT,
    /// Beacon, safe water
    BCNSAW,
    /// Beacon, special purpose/general
    BCNSPP,
    /// Berth
    BERTHS,
    /// Bridge
    BRIDGE,
    /// Building, single
    BUISGL,
    /// Built-up area
    BUAARE,
    /// Buoy, cardinal
    BOYCAR,
    /// Buoy, installation
    BOYINB,
    /// Buoy, isolated danger
    BOYISD,
    /// Buoy, lateral
    BOYLAT,
    /// Buoy, safe water
    BOYSAW,
    /// Buoy, special purpose/general
    BOYSPP,
    /// Cable area
    CBLARE,
    /// Cable, overhead
    CBLOHD,
    /// Cable, submarine
    CBLSUB,
    /// Canal
    CANALS,
    /// Canal bank
    CANBNK,
    /// Cargo transhipment area
    CTSARE,
    /// Causeway
    CAUSWY,
    /// Caution area
    CTNARE,
    /// Checkpoint
    CHKPNT,
    /// Coastguard station
    CGUSTA,
    /// Coastline
    COALNE,
    /// Contiguous zone
    CONZNE,
    /// Continental shelf area
    COSARE,
    /// Control point
    CTRPNT,
    /// Conveyor
    CONVYR,
    /// Crane
    CRANES,
    /// Current - non-gravitational1
    CURENT,
    /// Custom zone
    CUSZNE,
    /// Dam
    DAMCON,
    /// Daymark
    DAYMAR,
    /// Deep water route centerline
    DWRTCL,
    /// Deep water route part
    DWRTPT,
    /// Depth area
    DEPARE,
    /// Depth contour
    DEPCNT,
    /// Distance mark
    DISMAR,
    /// Dock area
    DOCARE,
    /// Dredged area
    DRGARE,
    /// Dry dock
    DRYDOC,
    /// Dumping ground
    DMPGRD,
    /// Dyke
    DYKCON,
    /// Exclusive economic zone
    EXEZNE,
    /// Fairway
    FAIRWY,
    /// Fence/wall
    FNCLNE,
    /// Ferry route
    FERYRT,
    /// Fishery zone
    FSHZNE,
    /// Fishing facility
    FSHFAC,
    /// Fishing ground
    FSHGRD,
    /// Floating dock
    FLODOC,
    /// Fog signal
    FOGSIG,
    /// Fortified structure
    FORSTC,
    /// Free port area
    FRPARE,
    /// Gate
    GATCON,
    /// Gridiron
    GRIDRN,
    /// Harbour area (administrative)
    HRBARE,
    /// Harbour facility
    HRBFAC,
    /// Hulk
    HULKES,
    /// Ice area
    ICEARE,
    /// Incineration area
    ICNARE,
    /// Inshore traffic zone
    ISTZNE,
    /// Lake
    LAKARE,
    /// Lake shore
    LAKSHR,
    /// Land area
    LNDARE,
    /// Land elevation
    LNDELV,
    /// Land region
    LNDRGN,
    /// Landmark
    LNDMRK,
    /// Light
    LIGHTS,
    /// Light float
    LITFLT,
    /// Light vessel
    LITVES,
    /// Local magnetic anomaly
    LOCMAG,
    /// Lock basin
    LOKBSN,
    /// Log pond
    LOGPON,
    /// Magnetic variation
    MAGVAR,
    /// Marine farm/culture
    MARCUL,
    /// Military practice area
    MIPARE,
    /// Mooring/Warping facility
    MORFAC,
    /// Navigation line
    NAVLNE,
    /// Obstruction
    OBSTRN,
    /// Offshore platform
    OFSPLF,
    /// Offshore production area
    OSPARE,
    /// Oil barrier
    OILBAR,
    /// Pile
    PILPNT,
    /// Pilot boarding place
    PILBOP,
    /// Pipeline area
    PIPARE,
    /// Pipeline, overhead
    PIPOHD,
    /// Pipeline, submarine/on land
    PIPSOL,
    /// Pontoon
    PONTON,
    /// Precautionary area
    PRCARE,
    /// Production/storage area
    PRDARE,
    /// Pylon/bridge support
    PYLONS,
    /// Radar line
    RADLNE,
    /// Radar range
    RADRNG,
    /// Radar reflector
    RADRFL,
    /// Radar station
    RADSTA,
    /// Radar transponder beacon
    RTPBCN,
    /// Radio calling-in point
    RDOCAL,
    /// Radio station
    RDOSTA,
    /// Railway
    RAILWY,
    /// Rapids
    RAPIDS,
    /// Recommended route centerline
    RCRTCL,
    /// Recommended track
    RECTRC,
    /// Recommended traffic lane part
    RCTLPT,
    /// Rescue station
    RSCSTA,
    /// Restricted area
    RESARE,
    /// Retro-reflector
    RETRFL,
    /// River
    RIVERS,
    /// River bank
    RIVBNK,
    /// Road
    ROADWY,
    /// Runway
    RUNWAY,
    /// Sand waves
    SNDWAV,
    /// Sea area/named water area
    SEAARE,
    /// Sea-plane landing area
    SPLARE,
    /// Seabed area
    SBDARE,
    /// Shoreline construction
    SLCONS,
    /// Signal station, traffic
    SISTAT,
    /// Signal station, warning
    SISTAW,
    /// Silo/tank
    SILTNK,
    /// Slope topline
    SLOTOP,
    /// Sloping ground
    SLOGRD,
    /// Small craft facility
    SMCFAC,
    /// Sounding
    SOUNDG,
    /// Spring
    SPRING,
    /// Square
    SQUARE,
    /// Straight territorial sea baseline
    STSLNE,
    /// Submarine transit lane
    SUBTLN,
    /// Swept Area
    SWPARE,
    /// Territorial sea area
    TESARE,
    /// Tidal stream - harmonic prediction
    TS_PRH,
    /// Tidal stream - flood / ebb
    TS_FEB,
    /// Tidal stream - non-harmonic prediction
    TS_PNH,
    /// Tidal stream panel data
    TS_PAD,
    /// Tidal stream - time series
    TS_TIS,
    /// Tide - harmonic prediction
    T_HMON,
    /// Tide - non-harmonic prediction
    T_NHMN,
    /// Tide - time series
    T_TIMS,
    /// Tideway
    TIDEWY,
    /// Topmark
    TOPMAR,
    /// Traffic separation line
    TSELNE,
    /// Traffic separation scheme boundary
    TSSBND,
    /// Traffic separation scheme crossing
    TSSCRS,
    /// Traffic separation scheme lane part
    TSSLPT,
    /// Traffic separation scheme roundabout
    TSSRON,
    /// Traffic separation zone
    TSEZNE,
    /// Tunnel
    TUNNEL,
    /// Two-way route part
    TWRTPT,
    /// Underwater/awash rock
    UWTROC,
    /// Unsurveyed area
    UNSARE,
    /// Vegetation
    VEGATN,
    /// Water turbulence
    WATTUR,
    /// Waterfall
    WATFAL,
    /// Weed/Kelp
    WEDKLP,
    /// Wreck
    WRECKS,
    /// Accuracy of data
    M_ACCY,
    /// Compilation scale of data
    M_CSCL,
    /// Coverage
    M_COVR,
    /// Horizontal datum of data
    M_HDAT,
    /// Horizontal datum shift parameters
    M_HOPA,
    /// Nautical publication information
    M_NPUB,
    /// Navigational system of marks
    M_NSYS,
    /// Production information
    M_PROD,
    /// Quality of data
    M_QUAL,
    /// Sounding datum
    M_SDAT,
    /// Survey reliability
    M_SREL,
    /// Units of measurement of data
    M_UNIT,
    /// Vertical datum of data
    M_VDAT,
    /// Aggregation
    C_AGGR,
    /// Association
    C_ASSO,
    /// Stacked on/stacked under
    C_STAC,
    /// Cartographic area
    AREAS,
    /// Cartographic line
    LINES,
    /// Cartographic symbol
    CSYMB,
    /// Compass
    COMPS,
    /// Text
    TEXTS,
}

impl S57Type {
    /// The code under which the table lists this entry; `Unknown` has code 0.
    pub open spec fn spec_type_code(self) -> int {
        match self {
            S57Type::Unknown => 0,
            S57Type::ADMARE => 1,
            S57Type::AIRARE => 2,
            S57Type::ACHBRT => 3,
            S57Type::ACHARE => 4,
            S57Type::BCNCAR => 5,
            S57Type::BCNISD => 6,
            S57Type::BCNLAT => 7,
            S57Type::BCNSAW => 8,
            S57Type::BCNSPP => 9,
            S57Type::BERTHS => 10,
            S57Type::BRIDGE => 11,
            S57Type::BUISGL => 12,
            S57Type::BUAARE => 13,
            S57Type::BOYCAR => 14,
            S57Type::BOYINB => 15,
            S57Type::BOYISD => 16,
            S57Type::BOYLAT => 17,
            S57Type::BOYSAW => 18,
            S57Type::BOYSPP => 19,
            S57Type::CBLARE => 20,
            S57Type::CBLOHD => 21,
            S57Type::CBLSUB => 22,
            S57Type::CANALS => 23,
            S57Type::CANBNK => 24,
            S57Type::CTSARE => 25,
            S57Type::CAUSWY => 26,
            S57Type::CTNARE => 27,
            S57Type::CHKPNT => 28,
            S57Type::CGUSTA => 29,
            S57Type::COALNE => 30,
            S57Type::CONZNE => 31,
            S57Type::COSARE => 32,
            S57Type::CTRPNT => 33,
            S57Type::CONVYR => 34,
            S57Type::CRANES => 35,
            S57Type::CURENT => 36,
            S57Type::CUSZNE => 37,
            S57Type::DAMCON => 38,
            S57Type::DAYMAR => 39,
            S57Type::DWRTCL => 40,
            S57Type::DWRTPT => 41,
            S57Type::DEPARE => 42,
            S57Type::DEPCNT => 43,
            S57Type::DISMAR => 44,
            S57Type::DOCARE => 45,
            S57Type::DRGARE => 46,
            S57Type::DRYDOC => 47,
            S57Type::DMPGRD => 48,
            S57Type::DYKCON => 49,
            S57Type::EXEZNE => 50,
            S57Type::FAIRWY => 51,
            S57Type::FNCLNE => 52,
            S57Type::FERYRT => 53,
            S57Type::FSHZNE => 54,
            S57Type::FSHFAC => 55,
            S57Type::FSHGRD => 56,
            S57Type::FLODOC => 57,
            S57Type::FOGSIG => 58,
            S57Type::FORSTC => 59,
            S57Type::FRPARE => 60,
            S57Type::GATCON => 61,
            S57Type::GRIDRN => 62,
            S57Type::HRBARE => 63,
            S57Type::HRBFAC => 64,
            S57Type::HULKES => 65,
            S57Type::ICEARE => 66,
            S57Type::ICNARE => 67,
            S57Type::ISTZNE => 68,
            S57Type::LAKARE => 69,
            S57Type::LAKSHR => 70,
            S57Type::LNDARE => 71,
            S57Type::LNDELV => 72,
            S57Type::LNDRGN => 73,
            S57Type::LNDMRK => 74,
            S57Type::LIGHTS => 75,
            S57Type::LITFLT => 76,
            S57Type::LITVES => 77,
            S57Type::LOCMAG => 78,
            S57Type::LOKBSN => 79,
            S57Type::LOGPON => 80,
            S57Type::MAGVAR => 81,
            S57Type::MARCUL => 82,
            S57Type::MIPARE => 83,
            S57Type::MORFAC => 84,
            S57Type::NAVLNE => 85,
            S57Type::OBSTRN => 86,
            S57Type::OFSPLF => 87,
            S57Type::OSPARE => 88,
            S57Type::OILBAR => 89,
            S57Type::PILPNT => 90,
            S57Type::PILBOP => 91,
            S57Type::PIPARE => 92,
            S57Type::PIPOHD => 93,
            S57Type::PIPSOL => 94,
            S57Type::PONTON => 95,
            S57Type::PRCARE => 96,
            S57Type::PRDARE => 97,
            S57Type::PYLONS => 98,
            S57Type::RADLNE => 99,
            S57Type::RADRNG => 100,
            S57Type::RADRFL => 101,
            S57Type::RADSTA => 102,
            S57Type::RTPBCN => 103,
            S57Type::RDOCAL => 104,
            S57Type::RDOSTA => 105,
            S57Type::RAILWY => 106,
            S57Type::RAPIDS => 107,
            S57Type::RCRTCL => 108,
            S57Type::RECTRC => 109,
            S57Type::RCTLPT => 110,
            S57Type::RSCSTA => 111,
            S57Type::RESARE => 112,
            S57Type::RETRFL => 113,
            S57Type::RIVERS => 114,
            S57Type::RIVBNK => 115,
            S57Type::ROADWY => 116,
            S57Type::RUNWAY => 117,
            S57Type::SNDWAV => 118,
            S57Type::SEAARE => 119,
            S57Type::SPLARE => 120,
            S57Type::SBDARE => 121,
            S57Type::SLCONS => 122,
            S57Type::SISTAT => 123,
            S57Type::SISTAW => 124,
            S57Type::SILTNK => 125,
            S57Type::SLOTOP => 126,
            S57Type::SLOGRD => 127,
            S57Type::SMCFAC => 128,
            S57Type::SOUNDG => 129,
            S57Type::SPRING => 130,
            S57Type::SQUARE => 131,
            S57Type::STSLNE => 132,
            S57Type::SUBTLN => 133,
            S57Type::SWPARE => 134,
            S57Type::TESARE => 135,
            S57Type::TS_PRH => 136,
            S57Type::TS_FEB => 160,
            S57Type::TS_PNH => 137,
            S57Type::TS_PAD => 138,
            S57Type::TS_TIS => 139,
            S57Type::T_HMON => 140,
            S57Type::T_NHMN => 141,
            S57Type::T_TIMS => 142,
            S57Type::TIDEWY => 143,
            S57Type::TOPMAR => 144,
            S57Type::TSELNE => 145,
            S57Type::TSSBND => 146,
            S57Type::TSSCRS => 147,
            S57Type::TSSLPT => 148,
            S57Type::TSSRON => 149,
            S57Type::TSEZNE => 150,
            S57Type::TUNNEL => 151,
            S57Type::TWRTPT => 152,
            S57Type::UWTROC => 153,
            S57Type::UNSARE => 154,
            S57Type::VEGATN => 155,
            S57Type::WATTUR => 156,
            S57Type::WATFAL => 157,
            S57Type::WEDKLP => 158,
            S57Type::WRECKS => 159,
            S57Type::M_ACCY => 300,
            S57Type::M_CSCL => 301,
            S57Type::M_COVR => 302,
            S57Type::M_HDAT => 303,
            S57Type::M_HOPA => 304,
            S57Type::M_NPUB => 305,
            S57Type::M_NSYS => 306,
            S57Type::M_PROD => 307,
            S57Type::M_QUAL => 308,
            S57Type::M_SDAT => 309,
            S57Type::M_SREL => 310,
            S57Type::M_UNIT => 311,
            S57Type::M_VDAT => 312,
            S57Type::C_AGGR => 400,
            S57Type::C_ASSO => 401,
            S57Type::C_STAC => 402,
            S57Type::AREAS => 500,
            S57Type::LINES => 501,
            S57Type::CSYMB => 502,
            S57Type::COMPS => 503,
            S57Type::TEXTS => 504,
        }
    }

    /// Whether some entry of the table has this code.
    pub open spec fn is_listed(code: int) -> bool {
        exists|entry: S57Type| #[trigger] entry.spec_type_code() == code
    }

    /// The entry with this code, and `Unknown` where the table has none.
    pub open spec fn spec_from_type_code(code: int) -> S57Type {
        if Self::is_listed(code) {
            choose|entry: S57Type| #[trigger] entry.spec_type_code() == code
        } else {
            S57Type::Unknown
        }
    }

    /// No two entries share a code.
    pub proof fn lemma_type_code_injective(a: S57Type, b: S57Type)
        requires
            a.spec_type_code() == b.spec_type_code(),
        ensures
            a == b,
    {
    }

    /// Looking up the code of an entry gives that entry back.
    pub proof fn lemma_from_type_code_of_code(entry: S57Type)
        ensures
            Self::spec_from_type_code(entry.spec_type_code()) == entry,
    {
        let code = entry.spec_type_code();
        assert(Self::is_listed(code));
        Self::lemma_type_code_injective(Self::spec_from_type_code(code), entry);
    }

    /// A lookup gives an entry with the code asked for, or `Unknown`.
    pub proof fn lemma_code_of_from_type_code(code: int)
        ensures
            Self::is_listed(code) ==> Self::spec_from_type_code(code).spec_type_code() == code,
            !Self::is_listed(code) ==> Self::spec_from_type_code(code) == S57Type::Unknown,
    {
    }

    /// The code of this entry.
    pub fn type_code(&self) -> (code: i32)
        ensures
            code == self.spec_type_code(),
    {
        match self {
            S57Type::Unknown => 0,
            S57Type::ADMARE => 1,
            S57Type::AIRARE => 2,
            S57Type::ACHBRT => 3,
            S57Type::ACHARE => 4,
            S57Type::BCNCAR => 5,
            S57Type::BCNISD => 6,
            S57Type::BCNLAT => 7,
            S57Type::BCNSAW => 8,
            S57Type::BCNSPP => 9,
            S57Type::BERTHS => 10,
            S57Type::BRIDGE => 11,
            S57Type::BUISGL => 12,
            S57Type::BUAARE => 13,
            S57Type::BOYCAR => 14,
            S57Type::BOYINB => 15,
            S57Type::BOYISD => 16,
            S57Type::BOYLAT => 17,
            S57Type::BOYSAW => 18,
            S57Type::BOYSPP => 19,
            S57Type::CBLARE => 20,
            S57Type::CBLOHD => 21,
            S57Type::CBLSUB => 22,
            S57Type::CANALS => 23,
            S57Type::CANBNK => 24,
            S57Type::CTSARE => 25,
            S57Type::CAUSWY => 26,
            S57Type::CTNARE => 27,
            S57Type::CHKPNT => 28,
            S57Type::CGUSTA => 29,
            S57Type::COALNE => 30,
            S57Type::CONZNE => 31,
            S57Type::COSARE => 32,
            S57Type::CTRPNT => 33,
            S57Type::CONVYR => 34,
            S57Type::CRANES => 35,
            S57Type::CURENT => 36,
            S57Type::CUSZNE => 37,
            S57Type::DAMCON => 38,
            S57Type::DAYMAR => 39,
            S57Type::DWRTCL => 40,
            S57Type::DWRTPT => 41,
            S57Type::DEPARE => 42,
            S57Type::DEPCNT => 43,
            S57Type::DISMAR => 44,
            S57Type::DOCARE => 45,
            S57Type::DRGARE => 46,
            S57Type::DRYDOC => 47,
            S57Type::DMPGRD => 48,
            S57Type::DYKCON => 49,
            S57Type::EXEZNE => 50,
            S57Type::FAIRWY => 51,
            S57Type::FNCLNE => 52,
            S57Type::FERYRT => 53,
            S57Type::FSHZNE => 54,
            S57Type::FSHFAC => 55,
            S57Type::FSHGRD => 56,
            S57Type::FLODOC => 57,
            S57Type::FOGSIG => 58,
            S57Type::FORSTC => 59,
            S57Type::FRPARE => 60,
            S57Type::GATCON => 61,
            S57Type::GRIDRN => 62,
            S57Type::HRBARE => 63,
            S57Type::HRBFAC => 64,
            S57Type::HULKES => 65,
            S57Type::ICEARE => 66,
            S57Type::ICNARE => 67,
            S57Type::ISTZNE => 68,
            S57Type::LAKARE => 69,
            S57Type::LAKSHR => 70,
            S57Type::LNDARE => 71,
            S57Type::LNDELV => 72,
            S57Type::LNDRGN => 73,
            S57Type::LNDMRK => 74,
            S57Type::LIGHTS => 75,
            S57Type::LITFLT => 76,
            S57Type::LITVES => 77,
            S57Type::LOCMAG => 78,
            S57Type::LOKBSN => 79,
            S57Type::LOGPON => 80,
            S57Type::MAGVAR => 81,
            S57Type::MARCUL => 82,
            S57Type::MIPARE => 83,
            S57Type::MORFAC => 84,
            S57Type::NAVLNE => 85,
            S57Type::OBSTRN => 86,
            S57Type::OFSPLF => 87,
            S57Type::OSPARE => 88,
            S57Type::OILBAR => 89,
            S57Type::PILPNT => 90,
            S57Type::PILBOP => 91,
            S57Type::PIPARE => 92,
            S57Type::PIPOHD => 93,
            S57Type::PIPSOL => 94,
            S57Type::PONTON => 95,
            S57Type::PRCARE => 96,
            S57Type::PRDARE => 97,
            S57Type::PYLONS => 98,
            S57Type::RADLNE => 99,
            S57Type::RADRNG => 100,
            S57Type::RADRFL => 101,
            S57Type::RADSTA => 102,
            S57Type::RTPBCN => 103,
            S57Type::RDOCAL => 104,
            S57Type::RDOSTA => 105,
            S57Type::RAILWY => 106,
            S57Type::RAPIDS => 107,
            S57Type::RCRTCL => 108,
            S57Type::RECTRC => 109,
            S57Type::RCTLPT => 110,
            S57Type::RSCSTA => 111,
            S57Type::RESARE => 112,
            S57Type::RETRFL => 113,
            S57Type::RIVERS => 114,
            S57Type::RIVBNK => 115,
            S57Type::ROADWY => 116,
            S57Type::RUNWAY => 117,
            S57Type::SNDWAV => 118,
            S57Type::SEAARE => 119,
            S57Type::SPLARE => 120,
            S57Type::SBDARE => 121,
            S57Type::SLCONS => 122,
            S57Type::SISTAT => 123,
            S57Type::SISTAW => 124,
            S57Type::SILTNK => 125,
            S57Type::SLOTOP => 126,
            S57Type::SLOGRD => 127,
            S57Type::SMCFAC => 128,
            S57Type::SOUNDG => 129,
            S57Type::SPRING => 130,
            S57Type::SQUARE => 131,
            S57Type::STSLNE => 132,
            S57Type::SUBTLN => 133,
            S57Type::SWPARE => 134,
            S57Type::TESARE => 135,
            S57Type::TS_PRH => 136,
            S57Type::TS_FEB => 160,
            S57Type::TS_PNH => 137,
            S57Type::TS_PAD => 138,
            S57Type::TS_TIS => 139,
            S57Type::T_HMON => 140,
            S57Type::T_NHMN => 141,
            S57Type::T_TIMS => 142,
            S57Type::TIDEWY => 143,
            S57Type::TOPMAR => 144,
            S57Type::TSELNE => 145,
            S57Type::TSSBND => 146,
            S57Type::TSSCRS => 147,
            S57Type::TSSLPT => 148,
            S57Type::TSSRON => 149,
            S57Type::TSEZNE => 150,
            S57Type::TUNNEL => 151,
            S57Type::TWRTPT => 152,
            S57Type::UWTROC => 153,
            S57Type::UNSARE => 154,
            S57Type::VEGATN => 155,
            S57Type::WATTUR => 156,
            S57Type::WATFAL => 157,
            S57Type::WEDKLP => 158,
            S57Type::WRECKS => 159,
            S57Type::M_ACCY => 300,
            S57Type::M_CSCL => 301,
            S57Type::M_COVR => 302,
            S57Type::M_HDAT => 303,
            S57Type::M_HOPA => 304,
            S57Type::M_NPUB => 305,
            S57Type::M_NSYS => 306,
            S57Type::M_PROD => 307,
            S57Type::M_QUAL => 308,
            S57Type::M_SDAT => 309,
            S57Type::M_SREL => 310,
            S57Type::M_UNIT => 311,
            S57Type::M_VDAT => 312,
            S57Type::C_AGGR => 400,
            S57Type::C_ASSO => 401,
            S57Type::C_STAC => 402,
            S57Type::AREAS => 500,
            S57Type::LINES => 501,
            S57Type::CSYMB => 502,
            S57Type::COMPS => 503,
            S57Type::TEXTS => 504,
        }
    }

    /// Resolves a code to its entry. The mapping is total: a code that the
    /// table does not list resolves to `Unknown`.
    pub fn from_type_code(type_code: i32) -> (entry: S57Type)
        ensures
            entry == Self::spec_from_type_code(type_code as int),
    {
        let entry = match type_code {
            1 => S57Type::ADMARE,
            2 => S57Type::AIRARE,
            3 => S57Type::ACHBRT,
            4 => S57Type::ACHARE,
            5 => S57Type::BCNCAR,
            6 => S57Type::BCNISD,
            7 => S57Type::BCNLAT,
            8 => S57Type::BCNSAW,
            9 => S57Type::BCNSPP,
            10 => S57Type::BERTHS,
            11 => S57Type::BRIDGE,
            12 => S57Type::BUISGL,
            13 => S57Type::BUAARE,
            14 => S57Type::BOYCAR,
            15 => S57Type::BOYINB,
            16 => S57Type::BOYISD,
            17 => S57Type::BOYLAT,
            18 => S57Type::BOYSAW,
            19 => S57Type::BOYSPP,
            20 => S57Type::CBLARE,
            21 => S57Type::CBLOHD,
            22 => S57Type::CBLSUB,
            23 => S57Type::CANALS,
            24 => S57Type::CANBNK,
            25 => S57Type::CTSARE,
            26 => S57Type::CAUSWY,
            27 => S57Type::CTNARE,
            28 => S57Type::CHKPNT,
            29 => S57Type::CGUSTA,
            30 => S57Type::COALNE,
            31 => S57Type::CONZNE,
            32 => S57Type::COSARE,
            33 => S57Type::CTRPNT,
            34 => S57Type::CONVYR,
            35 => S57Type::CRANES,
            36 => S57Type::CURENT,
            37 => S57Type::CUSZNE,
            38 => S57Type::DAMCON,
            39 => S57Type::DAYMAR,
            40 => S57Type::DWRTCL,
            41 => S57Type::DWRTPT,
            42 => S57Type::DEPARE,
            43 => S57Type::DEPCNT,
            44 => S57Type::DISMAR,
            45 => S57Type::DOCARE,
            46 => S57Type::DRGARE,
            47 => S57Type::DRYDOC,
            48 => S57Type::DMPGRD,
            49 => S57Type::DYKCON,
            50 => S57Type::EXEZNE,
            51 => S57Type::FAIRWY,
            52 => S57Type::FNCLNE,
            53 => S57Type::FERYRT,
            54 => S57Type::FSHZNE,
            55 => S57Type::FSHFAC,
            56 => S57Type::FSHGRD,
            57 => S57Type::FLODOC,
            58 => S57Type::FOGSIG,
            59 => S57Type::FORSTC,
            60 => S57Type::FRPARE,
            61 => S57Type::GATCON,
            62 => S57Type::GRIDRN,
            63 => S57Type::HRBARE,
            64 => S57Type::HRBFAC,
            65 => S57Type::HULKES,
            66 => S57Type::ICEARE,
            67 => S57Type::ICNARE,
            68 => S57Type::ISTZNE,
            69 => S57Type::LAKARE,
            70 => S57Type::LAKSHR,
            71 => S57Type::LNDARE,
            72 => S57Type::LNDELV,
            73 => S57Type::LNDRGN,
            74 => S57Type::LNDMRK,
            75 => S57Type::LIGHTS,
            76 => S57Type::LITFLT,
            77 => S57Type::LITVES,
            78 => S57Type::LOCMAG,
            79 => S57Type::LOKBSN,
            80 => S57Type::LOGPON,
            81 => S57Type::MAGVAR,
            82 => S57Type::MARCUL,
            83 => S57Type::MIPARE,
            84 => S57Type::MORFAC,
            85 => S57Type::NAVLNE,
            86 => S57Type::OBSTRN,
            87 => S57Type::OFSPLF,
            88 => S57Type::OSPARE,
            89 => S57Type::OILBAR,
            90 => S57Type::PILPNT,
            91 => S57Type::PILBOP,
            92 => S57Type::PIPARE,
            93 => S57Type::PIPOHD,
            94 => S57Type::PIPSOL,
            95 => S57Type::PONTON,
            96 => S57Type::PRCARE,
            97 => S57Type::PRDARE,
            98 => S57Type::PYLONS,
            99 => S57Type::RADLNE,
            100 => S57Type::RADRNG,
            101 => S57Type::RADRFL,
            102 => S57Type::RADSTA,
            103 => S57Type::RTPBCN,
            104 => S57Type::RDOCAL,
            105 => S57Type::RDOSTA,
            106 => S57Type::RAILWY,
            107 => S57Type::RAPIDS,
            108 => S57Type::RCRTCL,
            109 => S57Type::RECTRC,
            110 => S57Type::RCTLPT,
            111 => S57Type::RSCSTA,
            112 => S57Type::RESARE,
            113 => S57Type::RETRFL,
            114 => S57Type::RIVERS,
            115 => S57Type::RIVBNK,
            116 => S57Type::ROADWY,
            117 => S57Type::RUNWAY,
            118 => S57Type::SNDWAV,
            119 => S57Type::SEAARE,
            120 => S57Type::SPLARE,
            121 => S57Type::SBDARE,
            122 => S57Type::SLCONS,
            123 => S57Type::SISTAT,
            124 => S57Type::SISTAW,
            125 => S57Type::SILTNK,
            126 => S57Type::SLOTOP,
            127 => S57Type::SLOGRD,
            128 => S57Type::SMCFAC,
            129 => S57Type::SOUNDG,
            130 => S57Type::SPRING,
            131 => S57Type::SQUARE,
            132 => S57Type::STSLNE,
            133 => S57Type::SUBTLN,
            134 => S57Type::SWPARE,
            135 => S57Type::TESARE,
            136 => S57Type::TS_PRH,
            137 => S57Type::TS_PNH,
            138 => S57Type::TS_PAD,
            139 => S57Type::TS_TIS,
            140 => S57Type::T_HMON,
            141 => S57Type::T_NHMN,
            142 => S57Type::T_TIMS,
            143 => S57Type::TIDEWY,
            144 => S57Type::TOPMAR,
            145 => S57Type::TSELNE,
            146 => S57Type::TSSBND,
            147 => S57Type::TSSCRS,
            148 => S57Type::TSSLPT,
            149 => S57Type::TSSRON,
            150 => S57Type::TSEZNE,
            151 => S57Type::TUNNEL,
            152 => S57Type::TWRTPT,
            153 => S57Type::UWTROC,
            154 => S57Type::UNSARE,
            155 => S57Type::VEGATN,
            156 => S57Type::WATTUR,
            157 => S57Type::WATFAL,
            158 => S57Type::WEDKLP,
            159 => S57Type::WRECKS,
            160 => S57Type::TS_FEB,
            300 => S57Type::M_ACCY,
            301 => S57Type::M_CSCL,
            302 => S57Type::M_COVR,
            303 => S57Type::M_HDAT,
            304 => S57Type::M_HOPA,
            305 => S57Type::M_NPUB,
            306 => S57Type::M_NSYS,
            307 => S57Type::M_PROD,
            308 => S57Type::M_QUAL,
            309 => S57Type::M_SDAT,
            310 => S57Type::M_SREL,
            311 => S57Type::M_UNIT,
            312 => S57Type::M_VDAT,
            400 => S57Type::C_AGGR,
            401 => S57Type::C_ASSO,
            402 => S57Type::C_STAC,
            500 => S57Type::AREAS,
            501 => S57Type::LINES,
            502 => S57Type::CSYMB,
            503 => S57Type::COMPS,
            504 => S57Type::TEXTS,
            _ => S57Type::Unknown,
        };
        proof {
            if entry.spec_type_code() == type_code {
                Self::lemma_from_type_code_of_code(entry);
            } else {
                assert forall|other: S57Type| other.spec_type_code() != type_code by {}
            }
        }
        entry
    }
}

} // verus!
