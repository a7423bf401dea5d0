use vstd::prelude::*;

verus! {

/// The type of an object of the bigfile, as its file entry records it.
#[allow(non_camel_case_types)]
#[derive(Debug, Clone, Copy, PartialEq, Eq, Hash, Structural)]
pub enum ObjectType {
    null,
    ini, //yeti - ini file
    t_0x2,
    dup, //duplicate files
    wor, //world - world
    wot,
    woc, //world - engine config
    gol, //world - game object list
    ioi,
    wal, //world - way list
    lay,
    rec,
    rsy,
    gao, //object - game object
    way, //way - way
    nas,
    cur, //curve - curve
    wel, //way - exernal link
    gtm,
    seq, //sequence - sequence
    cov, //cover -  covers manager
    vgl,
    vgc,
    vgg,
    ssq, //sequence - ???
    got, //object - graphic object table
    t_0x1A,
    msh, //visual - mesh metadata
    vxc, //visual - something about vertex buffer ???
    vxt,
    mat, //visual - material/shader
    sha, //visual - shader
    tga, //visual - texture metadata
    txs,
    t_0x22,
    ske,
    sfx,
    vid,
    shd, //visual - visual shader (probably a shader graph or something)
    she,
    dst, //visual - dustfx
    cub, //visual - cubemap light
    zc, //ai - script file
    tes,
    tsc,
    mgm,
    mgb,
    mft,
    acb, //animation - action bank
    act, //animation - action
    ani, //animation - animation
    aev, //animation - animation events
    snk, //sound - sound bank
    t_0x35,
    t_0x36,
    t_0x37,
    t_0x38,
    t_0x39,
    t_0x3A,
    t_0x3B,
    end, //?? - enumerable descriptor
    sam, //sound - ambience
    sin, //sound - config
    smx, //sound - sound mix
    svs, //sound - volumetric object
    t_0x41,
    t_0x42,
    t_0x43,
    t_0x44,
    t_0x45,
    t_0x46,
    ai, //ai - ai model
    aid,
    ste,
    fcf,
    var,
    aiv, //ai - ai variable
    stt,
    zar,
    zon, //zone - zone
    col, //object - collision ?
    cot, //object - collision object table
    gml, //visual - game material list
    gmt, //visual - game material
    phs, //object - physics structure ?
    t_0x55,
    ccm, //object - cooked collision mesh?
    dbk, //dynamic bank - bank
    dbl, //dynamic bank - bank list
    dbr, //dynamic bank - bank element reference list
    edi,
    hel,
    hsl,
    his,
    mta,
    wil, //world - world include list
    t_0x60,
    ymf,
    t_0x62,
    fbx,
    dds,
    png,
    bmp,
    jpg,
    ppm,
    grd,
    dlc, //dlc ?
    ymt,
    par,
    ard,
    med,
    lab, //animation - list action-bank
    feu, //fire - fire package
    ffd, //fire - fire font package
    top, //world - datastreaming entity topography
    msd, //visual - mesh data
    nav, //world - nav data
    skp, //skeleton - procedural data ?
    ago, //visual - dust fx ago ??
    afx, //visual - ago FX ???
    abk, //visual - ago FX bank
    cst, //ai - const list
    syw, //synapse - ???
    sym,
    aer,
    ghk, //game hook ?
    txd, //visual - texture data
    fbk, //fire - fire bank
    pfx,
    eps, //ai - dll editable param struct
    psh,
    epl, //ai - dll editable param list
    lgr,
    acp,
    ask,
    swl, //synapse - synapse world list
    ano, //animation - ano ???
    ann,
    rsf,
    led,
    shg, //??? shader - "SH_cl_List"
    cld, //cover - covers LD
    dtb, //data table - data table
    otf,
    ttf,
    adf,
    pco,
    t_0x93,
    t_0x94,
}

/// The number an object type is stored as.
pub open spec fn object_type_code(t: ObjectType) -> u16 {
    match t {
        ObjectType::null => 0,
        ObjectType::ini => 1,
        ObjectType::t_0x2 => 2,
        ObjectType::dup => 3,
        ObjectType::wor => 4,
        ObjectType::wot => 5,
        ObjectType::woc => 6,
        ObjectType::gol => 7,
        ObjectType::ioi => 8,
        ObjectType::wal => 9,
        ObjectType::lay => 10,
        ObjectType::rec => 11,
        ObjectType::rsy => 12,
        ObjectType::gao => 13,
        ObjectType::way => 14,
        ObjectType::nas => 15,
        ObjectType::cur => 16,
        ObjectType::wel => 17,
        ObjectType::gtm => 18,
        ObjectType::seq => 19,
        ObjectType::cov => 20,
        ObjectType::vgl => 21,
        ObjectType::vgc => 22,
        ObjectType::vgg => 23,
        ObjectType::ssq => 24,
        ObjectType::got => 25,
        ObjectType::t_0x1A => 26,
        ObjectType::msh => 27,
        ObjectType::vxc => 28,
        ObjectType::vxt => 29,
        ObjectType::mat => 30,
        ObjectType::sha => 31,
        ObjectType::tga => 32,
        ObjectType::txs => 33,
        ObjectType::t_0x22 => 34,
        ObjectType::ske => 35,
        ObjectType::sfx => 36,
        ObjectType::vid => 37,
        ObjectType::shd => 38,
        ObjectType::she => 39,
        ObjectType::dst => 40,
        ObjectType::cub => 41,
        ObjectType::zc => 42,
        ObjectType::tes => 43,
        ObjectType::tsc => 44,
        ObjectType::mgm => 45,
        ObjectType::mgb => 46,
        ObjectType::mft => 47,
        ObjectType::acb => 48,
        ObjectType::act => 49,
        ObjectType::ani => 50,
        ObjectType::aev => 51,
        ObjectType::snk => 52,
        ObjectType::t_0x35 => 53,
        ObjectType::t_0x36 => 54,
        ObjectType::t_0x37 => 55,
        ObjectType::t_0x38 => 56,
        ObjectType::t_0x39 => 57,
        ObjectType::t_0x3A => 58,
        ObjectType::t_0x3B => 59,
        ObjectType::end => 60,
        ObjectType::sam => 61,
        ObjectType::sin => 62,
        ObjectType::smx => 63,
        ObjectType::svs => 64,
        ObjectType::t_0x41 => 65,
        ObjectType::t_0x42 => 66,
        ObjectType::t_0x43 => 67,
        ObjectType::t_0x44 => 68,
        ObjectType::t_0x45 => 69,
        ObjectType::t_0x46 => 70,
        ObjectType::ai => 71,
        ObjectType::aid => 72,
        ObjectType::ste => 73,
        ObjectType::fcf => 74,
        ObjectType::var => 75,
        ObjectType::aiv => 76,
        ObjectType::stt => 77,
        ObjectType::zar => 78,
        ObjectType::zon => 79,
        ObjectType::col => 80,
        ObjectType::cot => 81,
        ObjectType::gml => 82,
        ObjectType::gmt => 83,
        ObjectType::phs => 84,
        ObjectType::t_0x55 => 85,
        ObjectType::ccm => 86,
        ObjectType::dbk => 87,
        ObjectType::dbl => 88,
        ObjectType::dbr => 89,
        ObjectType::edi => 90,
        ObjectType::hel => 91,
        ObjectType::hsl => 92,
        ObjectType::his => 93,
        ObjectType::mta => 94,
        ObjectType::wil => 95,
        ObjectType::t_0x60 => 96,
        ObjectType::ymf => 97,
        ObjectType::t_0x62 => 98,
        ObjectType::fbx => 99,
        ObjectType::dds => 100,
        ObjectType::png => 101,
        ObjectType::bmp => 102,
        ObjectType::jpg => 103,
        ObjectType::ppm => 104,
        ObjectType::grd => 105,
        ObjectType::dlc => 106,
        ObjectType::ymt => 107,
        ObjectType::par => 108,
        ObjectType::ard => 109,
        ObjectType::med => 110,
        ObjectType::lab => 111,
        ObjectType::feu => 112,
        ObjectType::ffd => 113,
        ObjectType::top => 114,
        ObjectType::msd => 115,
        ObjectType::nav => 116,
        ObjectType::skp => 117,
        ObjectType::ago => 118,
        ObjectType::afx => 119,
        ObjectType::abk => 120,
        ObjectType::cst => 121,
        ObjectType::syw => 122,
        ObjectType::sym => 123,
        ObjectType::aer => 124,
        ObjectType::ghk => 125,
        ObjectType::txd => 126,
        ObjectType::fbk => 127,
        ObjectType::pfx => 128,
        ObjectType::eps => 129,
        ObjectType::psh => 130,
        ObjectType::epl => 131,
        ObjectType::lgr => 132,
        ObjectType::acp => 133,
        ObjectType::ask => 134,
        ObjectType::swl => 135,
        ObjectType::ano => 136,
        ObjectType::ann => 137,
        ObjectType::rsf => 138,
        ObjectType::led => 139,
        ObjectType::shg => 140,
        ObjectType::cld => 141,
        ObjectType::dtb => 142,
        ObjectType::otf => 143,
        ObjectType::ttf => 144,
        ObjectType::adf => 145,
        ObjectType::pco => 146,
        ObjectType::t_0x93 => 147,
        ObjectType::t_0x94 => 148,
    }
}

/// The object type stored as `v`, if any.
pub open spec fn object_type_from_code(v: u16) -> Option<ObjectType> {
    if v == 0 { Some(ObjectType::null) } else
    if v == 1 { Some(ObjectType::ini) } else
    if v == 2 { Some(ObjectType::t_0x2) } else
    if v == 3 { Some(ObjectType::dup) } else
    if v == 4 { Some(ObjectType::wor) } else
    if v == 5 { Some(ObjectType::wot) } else
    if v == 6 { Some(ObjectType::woc) } else
    if v == 7 { Some(ObjectType::gol) } else
    if v == 8 { Some(ObjectType::ioi) } else
    if v == 9 { Some(ObjectType::wal) } else
    if v == 10 { Some(ObjectType::lay) } else
    if v == 11 { Some(ObjectType::rec) } else
    if v == 12 { Some(ObjectType::rsy) } else
    if v == 13 { Some(ObjectType::gao) } else
    if v == 14 { Some(ObjectType::way) } else
    if v == 15 { Some(ObjectType::nas) } else
    if v == 16 { Some(ObjectType::cur) } else
    if v == 17 { Some(ObjectType::wel) } else
    if v == 18 { Some(ObjectType::gtm) } else
    if v == 19 { Some(ObjectType::seq) } else
    if v == 20 { Some(ObjectType::cov) } else
    if v == 21 { Some(ObjectType::vgl) } else
    if v == 22 { Some(ObjectType::vgc) } else
    if v == 23 { Some(ObjectType::vgg) } else
    if v == 24 { Some(ObjectType::ssq) } else
    if v == 25 { Some(ObjectType::got) } else
    if v == 26 { Some(ObjectType::t_0x1A) } else
    if v == 27 { Some(ObjectType::msh) } else
    if v == 28 { Some(ObjectType::vxc) } else
    if v == 29 { Some(ObjectType::vxt) } else
    if v == 30 { Some(ObjectType::mat) } else
    if v == 31 { Some(ObjectType::sha) } else
    if v == 32 { Some(ObjectType::tga) } else
    if v == 33 { Some(ObjectType::txs) } else
    if v == 34 { Some(ObjectType::t_0x22) } else
    if v == 35 { Some(ObjectType::ske) } else
    if v == 36 { Some(ObjectType::sfx) } else
    if v == 37 { Some(ObjectType::vid) } else
    if v == 38 { Some(ObjectType::shd) } else
    if v == 39 { Some(ObjectType::she) } else
    if v == 40 { Some(ObjectType::dst) } else
    if v == 41 { Some(ObjectType::cub) } else
    if v == 42 { Some(ObjectType::zc) } else
    if v == 43 { Some(ObjectType::tes) } else
    if v == 44 { Some(ObjectType::tsc) } else
    if v == 45 { Some(ObjectType::mgm) } else
    if v == 46 { Some(ObjectType::mgb) } else
    if v == 47 { Some(ObjectType::mft) } else
    if v == 48 { Some(ObjectType::acb) } else
    if v == 49 { Some(ObjectType::act) } else
    if v == 50 { Some(ObjectType::ani) } else
    if v == 51 { Some(ObjectType::aev) } else
    if v == 52 { Some(ObjectType::snk) } else
    if v == 53 { Some(ObjectType::t_0x35) } else
    if v == 54 { Some(ObjectType::t_0x36) } else
    if v == 55 { Some(ObjectType::t_0x37) } else
    if v == 56 { Some(ObjectType::t_0x38) } else
    if v == 57 { Some(ObjectType::t_0x39) } else
    if v == 58 { Some(ObjectType::t_0x3A) } else
    if v == 59 { Some(ObjectType::t_0x3B) } else
    if v == 60 { Some(ObjectType::end) } else
    if v == 61 { Some(ObjectType::sam) } else
    if v == 62 { Some(ObjectType::sin) } else
    if v == 63 { Some(ObjectType::smx) } else
    if v == 64 { Some(ObjectType::svs) } else
    if v == 65 { Some(ObjectType::t_0x41) } else
    if v == 66 { Some(ObjectType::t_0x42) } else
    if v == 67 { Some(ObjectType::t_0x43) } else
    if v == 68 { Some(ObjectType::t_0x44) } else
    if v == 69 { Some(ObjectType::t_0x45) } else
    if v == 70 { Some(ObjectType::t_0x46) } else
    if v == 71 { Some(ObjectType::ai) } else
    if v == 72 { Some(ObjectType::aid) } else
    if v == 73 { Some(ObjectType::ste) } else
    if v == 74 { Some(ObjectType::fcf) } else
    if v == 75 { Some(ObjectType::var) } else
    if v == 76 { Some(ObjectType::aiv) } else
    if v == 77 { Some(ObjectType::stt) } else
    if v == 78 { Some(ObjectType::zar) } else
    if v == 79 { Some(ObjectType::zon) } else
    if v == 80 { Some(ObjectType::col) } else
    if v == 81 { Some(ObjectType::cot) } else
    if v == 82 { Some(ObjectType::gml) } else
    if v == 83 { Some(ObjectType::gmt) } else
    if v == 84 { Some(ObjectType::phs) } else
    if v == 85 { Some(ObjectType::t_0x55) } else
    if v == 86 { Some(ObjectType::ccm) } else
    if v == 87 { Some(ObjectType::dbk) } else
    if v == 88 { Some(ObjectType::dbl) } else
    if v == 89 { Some(ObjectType::dbr) } else
    if v == 90 { Some(ObjectType::edi) } else
    if v == 91 { Some(ObjectType::hel) } else
    if v == 92 { Some(ObjectType::hsl) } else
    if v == 93 { Some(ObjectType::his) } else
    if v == 94 { Some(ObjectType::mta) } else
    if v == 95 { Some(ObjectType::wil) } else
    if v == 96 { Some(ObjectType::t_0x60) } else
    if v == 97 { Some(ObjectType::ymf) } else
    if v == 98 { Some(ObjectType::t_0x62) } else
    if v == 99 { Some(ObjectType::fbx) } else
    if v == 100 { Some(ObjectType::dds) } else
    if v == 101 { Some(ObjectType::png) } else
    if v == 102 { Some(ObjectType::bmp) } else
    if v == 103 { Some(ObjectType::jpg) } else
    if v == 104 { Some(ObjectType::ppm) } else
    if v == 105 { Some(ObjectType::grd) } else
    if v == 106 { Some(ObjectType::dlc) } else
    if v == 107 { Some(ObjectType::ymt) } else
    if v == 108 { Some(ObjectType::par) } else
    if v == 109 { Some(ObjectType::ard) } else
    if v == 110 { Some(ObjectType::med) } else
    if v == 111 { Some(ObjectType::lab) } else
    if v == 112 { Some(ObjectType::feu) } else
    if v == 113 { Some(ObjectType::ffd) } else
    if v == 114 { Some(ObjectType::top) } else
    if v == 115 { Some(ObjectType::msd) } else
    if v == 116 { Some(ObjectType::nav) } else
    if v == 117 { Some(ObjectType::skp) } else
    if v == 118 { Some(ObjectType::ago) } else
    if v == 119 { Some(ObjectType::afx) } else
    if v == 120 { Some(ObjectType::abk) } else
    if v == 121 { Some(ObjectType::cst) } else
    if v == 122 { Some(ObjectType::syw) } else
    if v == 123 { Some(ObjectType::sym) } else
    if v == 124 { Some(ObjectType::aer) } else
    if v == 125 { Some(ObjectType::ghk) } else
    if v == 126 { Some(ObjectType::txd) } else
    if v == 127 { Some(ObjectType::fbk) } else
    if v == 128 { Some(ObjectType::pfx) } else
    if v == 129 { Some(ObjectType::eps) } else
    if v == 130 { Some(ObjectType::psh) } else
    if v == 131 { Some(ObjectType::epl) } else
    if v == 132 { Some(ObjectType::lgr) } else
    if v == 133 { Some(ObjectType::acp) } else
    if v == 134 { Some(ObjectType::ask) } else
    if v == 135 { Some(ObjectType::swl) } else
    if v == 136 { Some(ObjectType::ano) } else
    if v == 137 { Some(ObjectType::ann) } else
    if v == 138 { Some(ObjectType::rsf) } else
    if v == 139 { Some(ObjectType::led) } else
    if v == 140 { Some(ObjectType::shg) } else
    if v == 141 { Some(ObjectType::cld) } else
    if v == 142 { Some(ObjectType::dtb) } else
    if v == 143 { Some(ObjectType::otf) } else
    if v == 144 { Some(ObjectType::ttf) } else
    if v == 145 { Some(ObjectType::adf) } else
    if v == 146 { Some(ObjectType::pco) } else
    if v == 147 { Some(ObjectType::t_0x93) } else
    if v == 148 { Some(ObjectType::t_0x94) } else { None }
}

/// The name of an object type, as it is written out and as it ends a file's name.
pub open spec fn object_type_name(t: ObjectType) -> Seq<char> {
    match t {
        ObjectType::null => "null"@,
        ObjectType::ini => "ini"@,
        ObjectType::t_0x2 => "t_0x2"@,
        ObjectType::dup => "dup"@,
        ObjectType::wor => "wor"@,
        ObjectType::wot => "wot"@,
        ObjectType::woc => "woc"@,
        ObjectType::gol => "gol"@,
        ObjectType::ioi => "ioi"@,
        ObjectType::wal => "wal"@,
        ObjectType::lay => "lay"@,
        ObjectType::rec => "rec"@,
        ObjectType::rsy => "rsy"@,
        ObjectType::gao => "gao"@,
        ObjectType::way => "way"@,
        ObjectType::nas => "nas"@,
        ObjectType::cur => "cur"@,
        ObjectType::wel => "wel"@,
        ObjectType::gtm => "gtm"@,
        ObjectType::seq => "seq"@,
        ObjectType::cov => "cov"@,
        ObjectType::vgl => "vgl"@,
        ObjectType::vgc => "vgc"@,
        ObjectType::vgg => "vgg"@,
        ObjectType::ssq => "ssq"@,
        ObjectType::got => "got"@,
        ObjectType::t_0x1A => "t_0x1A"@,
        ObjectType::msh => "msh"@,
        ObjectType::vxc => "vxc"@,
        ObjectType::vxt => "vxt"@,
        ObjectType::mat => "mat"@,
        ObjectType::sha => "sha"@,
        ObjectType::tga => "tga"@,
        ObjectType::txs => "txs"@,
        ObjectType::t_0x22 => "t_0x22"@,
        ObjectType::ske => "ske"@,
        ObjectType::sfx => "sfx"@,
        ObjectType::vid => "vid"@,
        ObjectType::shd => "shd"@,
        ObjectType::she => "she"@,
        ObjectType::dst => "dst"@,
        ObjectType::cub => "cub"@,
        ObjectType::zc => "zc"@,
        ObjectType::tes => "tes"@,
        ObjectType::tsc => "tsc"@,
        ObjectType::mgm => "mgm"@,
        ObjectType::mgb => "mgb"@,
        ObjectType::mft => "mft"@,
        ObjectType::acb => "acb"@,
        ObjectType::act => "act"@,
        ObjectType::ani => "ani"@,
        ObjectType::aev => "aev"@,
        ObjectType::snk => "snk"@,
        ObjectType::t_0x35 => "t_0x35"@,
        ObjectType::t_0x36 => "t_0x36"@,
        ObjectType::t_0x37 => "t_0x37"@,
        ObjectType::t_0x38 => "t_0x38"@,
        ObjectType::t_0x39 => "t_0x39"@,
        ObjectType::t_0x3A => "t_0x3A"@,
        ObjectType::t_0x3B => "t_0x3B"@,
        ObjectType::end => "end"@,
        ObjectType::sam => "sam"@,
        ObjectType::sin => "sin"@,
        ObjectType::smx => "smx"@,
        ObjectType::svs => "svs"@,
        ObjectType::t_0x41 => "t_0x41"@,
        ObjectType::t_0x42 => "t_0x42"@,
        ObjectType::t_0x43 => "t_0x43"@,
        ObjectType::t_0x44 => "t_0x44"@,
        ObjectType::t_0x45 => "t_0x45"@,
        ObjectType::t_0x46 => "t_0x46"@,
        ObjectType::ai => "ai"@,
        ObjectType::aid => "aid"@,
        ObjectType::ste => "ste"@,
        ObjectType::fcf => "fcf"@,
        ObjectType::var => "var"@,
        ObjectType::aiv => "aiv"@,
        ObjectType::stt => "stt"@,
        ObjectType::zar => "zar"@,
        ObjectType::zon => "zon"@,
        ObjectType::col => "col"@,
        ObjectType::cot => "cot"@,
        ObjectType::gml => "gml"@,
        ObjectType::gmt => "gmt"@,
        ObjectType::phs => "phs"@,
        ObjectType::t_0x55 => "t_0x55"@,
        ObjectType::ccm => "ccm"@,
        ObjectType::dbk => "dbk"@,
        ObjectType::dbl => "dbl"@,
        ObjectType::dbr => "dbr"@,
        ObjectType::edi => "edi"@,
        ObjectType::hel => "hel"@,
        ObjectType::hsl => "hsl"@,
        ObjectType::his => "his"@,
        ObjectType::mta => "mta"@,
        ObjectType::wil => "wil"@,
        ObjectType::t_0x60 => "t_0x60"@,
        ObjectType::ymf => "ymf"@,
        ObjectType::t_0x62 => "t_0x62"@,
        ObjectType::fbx => "fbx"@,
        ObjectType::dds => "dds"@,
        ObjectType::png => "png"@,
        ObjectType::bmp => "bmp"@,
        ObjectType::jpg => "jpg"@,
        ObjectType::ppm => "ppm"@,
        ObjectType::grd => "grd"@,
        ObjectType::dlc => "dlc"@,
        ObjectType::ymt => "ymt"@,
        ObjectType::par => "par"@,
        ObjectType::ard => "ard"@,
        ObjectType::med => "med"@,
        ObjectType::lab => "lab"@,
        ObjectType::feu => "feu"@,
        ObjectType::ffd => "ffd"@,
        ObjectType::top => "top"@,
        ObjectType::msd => "msd"@,
        ObjectType::nav => "nav"@,
        ObjectType::skp => "skp"@,
        ObjectType::ago => "ago"@,
        ObjectType::afx => "afx"@,
        ObjectType::abk => "abk"@,
        ObjectType::cst => "cst"@,
        ObjectType::syw => "syw"@,
        ObjectType::sym => "sym"@,
        ObjectType::aer => "aer"@,
        ObjectType::ghk => "ghk"@,
        ObjectType::txd => "txd"@,
        ObjectType::fbk => "fbk"@,
        ObjectType::pfx => "pfx"@,
        ObjectType::eps => "eps"@,
        ObjectType::psh => "psh"@,
        ObjectType::epl => "epl"@,
        ObjectType::lgr => "lgr"@,
        ObjectType::acp => "acp"@,
        ObjectType::ask => "ask"@,
        ObjectType::swl => "swl"@,
        ObjectType::ano => "ano"@,
        ObjectType::ann => "ann"@,
        ObjectType::rsf => "rsf"@,
        ObjectType::led => "led"@,
        ObjectType::shg => "shg"@,
        ObjectType::cld => "cld"@,
        ObjectType::dtb => "dtb"@,
        ObjectType::otf => "otf"@,
        ObjectType::ttf => "ttf"@,
        ObjectType::adf => "adf"@,
        ObjectType::pco => "pco"@,
        ObjectType::t_0x93 => "t_0x93"@,
        ObjectType::t_0x94 => "t_0x94"@,
    }
}

/// The bytes of an object type's name.
pub open spec fn object_type_name_bytes(t: ObjectType) -> Seq<u8> {
    match t {
        ObjectType::null => seq![110u8, 117u8, 108u8, 108u8],
        ObjectType::ini => seq![105u8, 110u8, 105u8],
        ObjectType::t_0x2 => seq![116u8, 95u8, 48u8, 120u8, 50u8],
        ObjectType::dup => seq![100u8, 117u8, 112u8],
        ObjectType::wor => seq![119u8, 111u8, 114u8],
        ObjectType::wot => seq![119u8, 111u8, 116u8],
        ObjectType::woc => seq![119u8, 111u8, 99u8],
        ObjectType::gol => seq![103u8, 111u8, 108u8],
        ObjectType::ioi => seq![105u8, 111u8, 105u8],
        ObjectType::wal => seq![119u8, 97u8, 108u8],
        ObjectType::lay => seq![108u8, 97u8, 121u8],
        ObjectType::rec => seq![114u8, 101u8, 99u8],
        ObjectType::rsy => seq![114u8, 115u8, 121u8],
        ObjectType::gao => seq![103u8, 97u8, 111u8],
        ObjectType::way => seq![119u8, 97u8, 121u8],
        ObjectType::nas => seq![110u8, 97u8, 115u8],
        ObjectType::cur => seq![99u8, 117u8, 114u8],
        ObjectType::wel => seq![119u8, 101u8, 108u8],
        ObjectType::gtm => seq![103u8, 116u8, 109u8],
        ObjectType::seq => seq![115u8, 101u8, 113u8],
        ObjectType::cov => seq![99u8, 111u8, 118u8],
        ObjectType::vgl => seq![118u8, 103u8, 108u8],
        ObjectType::vgc => seq![118u8, 103u8, 99u8],
        ObjectType::vgg => seq![118u8, 103u8, 103u8],
        ObjectType::ssq => seq![115u8, 115u8, 113u8],
        ObjectType::got => seq![103u8, 111u8, 116u8],
        ObjectType::t_0x1A => seq![116u8, 95u8, 48u8, 120u8, 49u8, 65u8],
        ObjectType::msh => seq![109u8, 115u8, 104u8],
        ObjectType::vxc => seq![118u8, 120u8, 99u8],
        ObjectType::vxt => seq![118u8, 120u8, 116u8],
        ObjectType::mat => seq![109u8, 97u8, 116u8],
        ObjectType::sha => seq![115u8, 104u8, 97u8],
        ObjectType::tga => seq![116u8, 103u8, 97u8],
        ObjectType::txs => seq![116u8, 120u8, 115u8],
        ObjectType::t_0x22 => seq![116u8, 95u8, 48u8, 120u8, 50u8, 50u8],
        ObjectType::ske => seq![115u8, 107u8, 101u8],
        ObjectType::sfx => seq![115u8, 102u8, 120u8],
        ObjectType::vid => seq![118u8, 105u8, 100u8],
        ObjectType::shd => seq![115u8, 104u8, 100u8],
        ObjectType::she => seq![115u8, 104u8, 101u8],
        ObjectType::dst => seq![100u8, 115u8, 116u8],
        ObjectType::cub => seq![99u8, 117u8, 98u8],
        ObjectType::zc => seq![122u8, 99u8],
        ObjectType::tes => seq![116u8, 101u8, 115u8],
        ObjectType::tsc => seq![116u8, 115u8, 99u8],
        ObjectType::mgm => seq![109u8, 103u8, 109u8],
        ObjectType::mgb => seq![109u8, 103u8, 98u8],
        ObjectType::mft => seq![109u8, 102u8, 116u8],
        ObjectType::acb => seq![97u8, 99u8, 98u8],
        ObjectType::act => seq![97u8, 99u8, 116u8],
        ObjectType::ani => seq![97u8, 110u8, 105u8],
        ObjectType::aev => seq![97u8, 101u8, 118u8],
        ObjectType::snk => seq![115u8, 110u8, 107u8],
        ObjectType::t_0x35 => seq![116u8, 95u8, 48u8, 120u8, 51u8, 53u8],
        ObjectType::t_0x36 => seq![116u8, 95u8, 48u8, 120u8, 51u8, 54u8],
        ObjectType::t_0x37 => seq![116u8, 95u8, 48u8, 120u8, 51u8, 55u8],
        ObjectType::t_0x38 => seq![116u8, 95u8, 48u8, 120u8, 51u8, 56u8],
        ObjectType::t_0x39 => seq![116u8, 95u8, 48u8, 120u8, 51u8, 57u8],
        ObjectType::t_0x3A => seq![116u8, 95u8, 48u8, 120u8, 51u8, 65u8],
        ObjectType::t_0x3B => seq![116u8, 95u8, 48u8, 120u8, 51u8, 66u8],
        ObjectType::end => seq![101u8, 110u8, 100u8],
        ObjectType::sam => seq![115u8, 97u8, 109u8],
        ObjectType::sin => seq![115u8, 105u8, 110u8],
        ObjectType::smx => seq![115u8, 109u8, 120u8],
        ObjectType::svs => seq![115u8, 118u8, 115u8],
        ObjectType::t_0x41 => seq![116u8, 95u8, 48u8, 120u8, 52u8, 49u8],
        ObjectType::t_0x42 => seq![116u8, 95u8, 48u8, 120u8, 52u8, 50u8],
        ObjectType::t_0x43 => seq![116u8, 95u8, 48u8, 120u8, 52u8, 51u8],
        ObjectType::t_0x44 => seq![116u8, 95u8, 48u8, 120u8, 52u8, 52u8],
        ObjectType::t_0x45 => seq![116u8, 95u8, 48u8, 120u8, 52u8, 53u8],
        ObjectType::t_0x46 => seq![116u8, 95u8, 48u8, 120u8, 52u8, 54u8],
        ObjectType::ai => seq![97u8, 105u8],
        ObjectType::aid => seq![97u8, 105u8, 100u8],
        ObjectType::ste => seq![115u8, 116u8, 101u8],
        ObjectType::fcf => seq![102u8, 99u8, 102u8],
        ObjectType::var => seq![118u8, 97u8, 114u8],
        ObjectType::aiv => seq![97u8, 105u8, 118u8],
        ObjectType::stt => seq![115u8, 116u8, 116u8],
        ObjectType::zar => seq![122u8, 97u8, 114u8],
        ObjectType::zon => seq![122u8, 111u8, 110u8],
        ObjectType::col => seq![99u8, 111u8, 108u8],
        ObjectType::cot => seq![99u8, 111u8, 116u8],
        ObjectType::gml => seq![103u8, 109u8, 108u8],
        ObjectType::gmt => seq![103u8, 109u8, 116u8],
        ObjectType::phs => seq![112u8, 104u8, 115u8],
        ObjectType::t_0x55 => seq![116u8, 95u8, 48u8, 120u8, 53u8, 53u8],
        ObjectType::ccm => seq![99u8, 99u8, 109u8],
        ObjectType::dbk => seq![100u8, 98u8, 107u8],
        ObjectType::dbl => seq![100u8, 98u8, 108u8],
        ObjectType::dbr => seq![100u8, 98u8, 114u8],
        ObjectType::edi => seq![101u8, 100u8, 105u8],
        ObjectType::hel => seq![104u8, 101u8, 108u8],
        ObjectType::hsl => seq![104u8, 115u8, 108u8],
        ObjectType::his => seq![104u8, 105u8, 115u8],
        ObjectType::mta => seq![109u8, 116u8, 97u8],
        ObjectType::wil => seq![119u8, 105u8, 108u8],
        ObjectType::t_0x60 => seq![116u8, 95u8, 48u8, 120u8, 54u8, 48u8],
        ObjectType::ymf => seq![121u8, 109u8, 102u8],
        ObjectType::t_0x62 => seq![116u8, 95u8, 48u8, 120u8, 54u8, 50u8],
        ObjectType::fbx => seq![102u8, 98u8, 120u8],
        ObjectType::dds => seq![100u8, 100u8, 115u8],
        ObjectType::png => seq![112u8, 110u8, 103u8],
        ObjectType::bmp => seq![98u8, 109u8, 112u8],
        ObjectType::jpg => seq![106u8, 112u8, 103u8],
        ObjectType::ppm => seq![112u8, 112u8, 109u8],
        ObjectType::grd => seq![103u8, 114u8, 100u8],
        ObjectType::dlc => seq![100u8, 108u8, 99u8],
        ObjectType::ymt => seq![121u8, 109u8, 116u8],
        ObjectType::par => seq![112u8, 97u8, 114u8],
        ObjectType::ard => seq![97u8, 114u8, 100u8],
        ObjectType::med => seq![109u8, 101u8, 100u8],
        ObjectType::lab => seq![108u8, 97u8, 98u8],
        ObjectType::feu => seq![102u8, 101u8, 117u8],
        ObjectType::ffd => seq![102u8, 102u8, 100u8],
        ObjectType::top => seq![116u8, 111u8, 112u8],
        ObjectType::msd => seq![109u8, 115u8, 100u8],
        ObjectType::nav => seq![110u8, 97u8, 118u8],
        ObjectType::skp => seq![115u8, 107u8, 112u8],
        ObjectType::ago => seq![97u8, 103u8, 111u8],
        ObjectType::afx => seq![97u8, 102u8, 120u8],
        ObjectType::abk => seq![97u8, 98u8, 107u8],
        ObjectType::cst => seq![99u8, 115u8, 116u8],
        ObjectType::syw => seq![115u8, 121u8, 119u8],
        ObjectType::sym => seq![115u8, 121u8, 109u8],
        ObjectType::aer => seq![97u8, 101u8, 114u8],
        ObjectType::ghk => seq![103u8, 104u8, 107u8],
        ObjectType::txd => seq![116u8, 120u8, 100u8],
        ObjectType::fbk => seq![102u8, 98u8, 107u8],
        ObjectType::pfx => seq![112u8, 102u8, 120u8],
        ObjectType::eps => seq![101u8, 112u8, 115u8],
        ObjectType::psh => seq![112u8, 115u8, 104u8],
        ObjectType::epl => seq![101u8, 112u8, 108u8],
        ObjectType::lgr => seq![108u8, 103u8, 114u8],
        ObjectType::acp => seq![97u8, 99u8, 112u8],
        ObjectType::ask => seq![97u8, 115u8, 107u8],
        ObjectType::swl => seq![115u8, 119u8, 108u8],
        ObjectType::ano => seq![97u8, 110u8, 111u8],
        ObjectType::ann => seq![97u8, 110u8, 110u8],
        ObjectType::rsf => seq![114u8, 115u8, 102u8],
        ObjectType::led => seq![108u8, 101u8, 100u8],
        ObjectType::shg => seq![115u8, 104u8, 103u8],
        ObjectType::cld => seq![99u8, 108u8, 100u8],
        ObjectType::dtb => seq![100u8, 116u8, 98u8],
        ObjectType::otf => seq![111u8, 116u8, 102u8],
        ObjectType::ttf => seq![116u8, 116u8, 102u8],
        ObjectType::adf => seq![97u8, 100u8, 102u8],
        ObjectType::pco => seq![112u8, 99u8, 111u8],
        ObjectType::t_0x93 => seq![116u8, 95u8, 48u8, 120u8, 57u8, 51u8],
        ObjectType::t_0x94 => seq![116u8, 95u8, 48u8, 120u8, 57u8, 52u8],
    }
}

impl Default for ObjectType {
    fn default() -> (r: Self)
        ensures
            r == ObjectType::null,
    {
        ObjectType::null
    }
}

impl ObjectType {
    /// The object type stored as `v`: every code below 149 names one.
    pub fn from_repr(v: u16) -> (r: Option<ObjectType>)
        ensures
            r == object_type_from_code(v),
            r is Some <==> v < 149,
            r matches Some(t) ==> object_type_code(t) == v,
    {
        match v {
            0 => Some(ObjectType::null),
            1 => Some(ObjectType::ini),
            2 => Some(ObjectType::t_0x2),
            3 => Some(ObjectType::dup),
            4 => Some(ObjectType::wor),
            5 => Some(ObjectType::wot),
            6 => Some(ObjectType::woc),
            7 => Some(ObjectType::gol),
            8 => Some(ObjectType::ioi),
            9 => Some(ObjectType::wal),
            10 => Some(ObjectType::lay),
            11 => Some(ObjectType::rec),
            12 => Some(ObjectType::rsy),
            13 => Some(ObjectType::gao),
            14 => Some(ObjectType::way),
            15 => Some(ObjectType::nas),
            16 => Some(ObjectType::cur),
            17 => Some(ObjectType::wel),
            18 => Some(ObjectType::gtm),
            19 => Some(ObjectType::seq),
            20 => Some(ObjectType::cov),
            21 => Some(ObjectType::vgl),
            22 => Some(ObjectType::vgc),
            23 => Some(ObjectType::vgg),
            24 => Some(ObjectType::ssq),
            25 => Some(ObjectType::got),
            26 => Some(ObjectType::t_0x1A),
            27 => Some(ObjectType::msh),
            28 => Some(ObjectType::vxc),
            29 => Some(ObjectType::vxt),
            30 => Some(ObjectType::mat),
            31 => Some(ObjectType::sha),
            32 => Some(ObjectType::tga),
            33 => Some(ObjectType::txs),
            34 => Some(ObjectType::t_0x22),
            35 => Some(ObjectType::ske),
            36 => Some(ObjectType::sfx),
            37 => Some(ObjectType::vid),
            38 => Some(ObjectType::shd),
            39 => Some(ObjectType::she),
            40 => Some(ObjectType::dst),
            41 => Some(ObjectType::cub),
            42 => Some(ObjectType::zc),
            43 => Some(ObjectType::tes),
            44 => Some(ObjectType::tsc),
            45 => Some(ObjectType::mgm),
            46 => Some(ObjectType::mgb),
            47 => Some(ObjectType::mft),
            48 => Some(ObjectType::acb),
            49 => Some(ObjectType::act),
            50 => Some(ObjectType::ani),
            51 => Some(ObjectType::aev),
            52 => Some(ObjectType::snk),
            53 => Some(ObjectType::t_0x35),
            54 => Some(ObjectType::t_0x36),
            55 => Some(ObjectType::t_0x37),
            56 => Some(ObjectType::t_0x38),
            57 => Some(ObjectType::t_0x39),
            58 => Some(ObjectType::t_0x3A),
            59 => Some(ObjectType::t_0x3B),
            60 => Some(ObjectType::end),
            61 => Some(ObjectType::sam),
            62 => Some(ObjectType::sin),
            63 => Some(ObjectType::smx),
            64 => Some(ObjectType::svs),
            65 => Some(ObjectType::t_0x41),
            66 => Some(ObjectType::t_0x42),
            67 => Some(ObjectType::t_0x43),
            68 => Some(ObjectType::t_0x44),
            69 => Some(ObjectType::t_0x45),
            70 => Some(ObjectType::t_0x46),
            71 => Some(ObjectType::ai),
            72 => Some(ObjectType::aid),
            73 => Some(ObjectType::ste),
            74 => Some(ObjectType::fcf),
            75 => Some(ObjectType::var),
            76 => Some(ObjectType::aiv),
            77 => Some(ObjectType::stt),
            78 => Some(ObjectType::zar),
            79 => Some(ObjectType::zon),
            80 => Some(ObjectType::col),
            81 => Some(ObjectType::cot),
            82 => Some(ObjectType::gml),
            83 => Some(ObjectType::gmt),
            84 => Some(ObjectType::phs),
            85 => Some(ObjectType::t_0x55),
            86 => Some(ObjectType::ccm),
            87 => Some(ObjectType::dbk),
            88 => Some(ObjectType::dbl),
            89 => Some(ObjectType::dbr),
            90 => Some(ObjectType::edi),
            91 => Some(ObjectType::hel),
            92 => Some(ObjectType::hsl),
            93 => Some(ObjectType::his),
            94 => Some(ObjectType::mta),
            95 => Some(ObjectType::wil),
            96 => Some(ObjectType::t_0x60),
            97 => Some(ObjectType::ymf),
            98 => Some(ObjectType::t_0x62),
            99 => Some(ObjectType::fbx),
            100 => Some(ObjectType::dds),
            101 => Some(ObjectType::png),
            102 => Some(ObjectType::bmp),
            103 => Some(ObjectType::jpg),
            104 => Some(ObjectType::ppm),
            105 => Some(ObjectType::grd),
            106 => Some(ObjectType::dlc),
            107 => Some(ObjectType::ymt),
            108 => Some(ObjectType::par),
            109 => Some(ObjectType::ard),
            110 => Some(ObjectType::med),
            111 => Some(ObjectType::lab),
            112 => Some(ObjectType::feu),
            113 => Some(ObjectType::ffd),
            114 => Some(ObjectType::top),
            115 => Some(ObjectType::msd),
            116 => Some(ObjectType::nav),
            117 => Some(ObjectType::skp),
            118 => Some(ObjectType::ago),
            119 => Some(ObjectType::afx),
            120 => Some(ObjectType::abk),
            121 => Some(ObjectType::cst),
            122 => Some(ObjectType::syw),
            123 => Some(ObjectType::sym),
            124 => Some(ObjectType::aer),
            125 => Some(ObjectType::ghk),
            126 => Some(ObjectType::txd),
            127 => Some(ObjectType::fbk),
            128 => Some(ObjectType::pfx),
            129 => Some(ObjectType::eps),
            130 => Some(ObjectType::psh),
            131 => Some(ObjectType::epl),
            132 => Some(ObjectType::lgr),
            133 => Some(ObjectType::acp),
            134 => Some(ObjectType::ask),
            135 => Some(ObjectType::swl),
            136 => Some(ObjectType::ano),
            137 => Some(ObjectType::ann),
            138 => Some(ObjectType::rsf),
            139 => Some(ObjectType::led),
            140 => Some(ObjectType::shg),
            141 => Some(ObjectType::cld),
            142 => Some(ObjectType::dtb),
            143 => Some(ObjectType::otf),
            144 => Some(ObjectType::ttf),
            145 => Some(ObjectType::adf),
            146 => Some(ObjectType::pco),
            147 => Some(ObjectType::t_0x93),
            148 => Some(ObjectType::t_0x94),
            _ => None,
        }
    }

    /// The number this object type is stored as.
    pub fn repr(&self) -> (r: u16)
        ensures
            r == object_type_code(*self),
            r < 149,
            object_type_from_code(r) == Some(*self),
    {
        match self {
            ObjectType::null => 0,
            ObjectType::ini => 1,
            ObjectType::t_0x2 => 2,
            ObjectType::dup => 3,
            ObjectType::wor => 4,
            ObjectType::wot => 5,
            ObjectType::woc => 6,
            ObjectType::gol => 7,
            ObjectType::ioi => 8,
            ObjectType::wal => 9,
            ObjectType::lay => 10,
            ObjectType::rec => 11,
            ObjectType::rsy => 12,
            ObjectType::gao => 13,
            ObjectType::way => 14,
            ObjectType::nas => 15,
            ObjectType::cur => 16,
            ObjectType::wel => 17,
            ObjectType::gtm => 18,
            ObjectType::seq => 19,
            ObjectType::cov => 20,
            ObjectType::vgl => 21,
            ObjectType::vgc => 22,
            ObjectType::vgg => 23,
            ObjectType::ssq => 24,
            ObjectType::got => 25,
            ObjectType::t_0x1A => 26,
            ObjectType::msh => 27,
            ObjectType::vxc => 28,
            ObjectType::vxt => 29,
            ObjectType::mat => 30,
            ObjectType::sha => 31,
            ObjectType::tga => 32,
            ObjectType::txs => 33,
            ObjectType::t_0x22 => 34,
            ObjectType::ske => 35,
            ObjectType::sfx => 36,
            ObjectType::vid => 37,
            ObjectType::shd => 38,
            ObjectType::she => 39,
            ObjectType::dst => 40,
            ObjectType::cub => 41,
            ObjectType::zc => 42,
            ObjectType::tes => 43,
            ObjectType::tsc => 44,
            ObjectType::mgm => 45,
            ObjectType::mgb => 46,
            ObjectType::mft => 47,
            ObjectType::acb => 48,
            ObjectType::act => 49,
            ObjectType::ani => 50,
            ObjectType::aev => 51,
            ObjectType::snk => 52,
            ObjectType::t_0x35 => 53,
            ObjectType::t_0x36 => 54,
            ObjectType::t_0x37 => 55,
            ObjectType::t_0x38 => 56,
            ObjectType::t_0x39 => 57,
            ObjectType::t_0x3A => 58,
            ObjectType::t_0x3B => 59,
            ObjectType::end => 60,
            ObjectType::sam => 61,
            ObjectType::sin => 62,
            ObjectType::smx => 63,
            ObjectType::svs => 64,
            ObjectType::t_0x41 => 65,
            ObjectType::t_0x42 => 66,
            ObjectType::t_0x43 => 67,
            ObjectType::t_0x44 => 68,
            ObjectType::t_0x45 => 69,
            ObjectType::t_0x46 => 70,
            ObjectType::ai => 71,
            ObjectType::aid => 72,
            ObjectType::ste => 73,
            ObjectType::fcf => 74,
            ObjectType::var => 75,
            ObjectType::aiv => 76,
            ObjectType::stt => 77,
            ObjectType::zar => 78,
            ObjectType::zon => 79,
            ObjectType::col => 80,
            ObjectType::cot => 81,
            ObjectType::gml => 82,
            ObjectType::gmt => 83,
            ObjectType::phs => 84,
            ObjectType::t_0x55 => 85,
            ObjectType::ccm => 86,
            ObjectType::dbk => 87,
            ObjectType::dbl => 88,
            ObjectType::dbr => 89,
            ObjectType::edi => 90,
            ObjectType::hel => 91,
            ObjectType::hsl => 92,
            ObjectType::his => 93,
            ObjectType::mta => 94,
            ObjectType::wil => 95,
            ObjectType::t_0x60 => 96,
            ObjectType::ymf => 97,
            ObjectType::t_0x62 => 98,
            ObjectType::fbx => 99,
            ObjectType::dds => 100,
            ObjectType::png => 101,
            ObjectType::bmp => 102,
            ObjectType::jpg => 103,
            ObjectType::ppm => 104,
            ObjectType::grd => 105,
            ObjectType::dlc => 106,
            ObjectType::ymt => 107,
            ObjectType::par => 108,
            ObjectType::ard => 109,
            ObjectType::med => 110,
            ObjectType::lab => 111,
            ObjectType::feu => 112,
            ObjectType::ffd => 113,
            ObjectType::top => 114,
            ObjectType::msd => 115,
            ObjectType::nav => 116,
            ObjectType::skp => 117,
            ObjectType::ago => 118,
            ObjectType::afx => 119,
            ObjectType::abk => 120,
            ObjectType::cst => 121,
            ObjectType::syw => 122,
            ObjectType::sym => 123,
            ObjectType::aer => 124,
            ObjectType::ghk => 125,
            ObjectType::txd => 126,
            ObjectType::fbk => 127,
            ObjectType::pfx => 128,
            ObjectType::eps => 129,
            ObjectType::psh => 130,
            ObjectType::epl => 131,
            ObjectType::lgr => 132,
            ObjectType::acp => 133,
            ObjectType::ask => 134,
            ObjectType::swl => 135,
            ObjectType::ano => 136,
            ObjectType::ann => 137,
            ObjectType::rsf => 138,
            ObjectType::led => 139,
            ObjectType::shg => 140,
            ObjectType::cld => 141,
            ObjectType::dtb => 142,
            ObjectType::otf => 143,
            ObjectType::ttf => 144,
            ObjectType::adf => 145,
            ObjectType::pco => 146,
            ObjectType::t_0x93 => 147,
            ObjectType::t_0x94 => 148,
        }
    }

    /// The name of this object type (the name of its variant).
    pub fn name(&self) -> (r: &'static str)
        ensures
            r@ == object_type_name(*self),
    {
        match self {
            ObjectType::null => "null",
            ObjectType::ini => "ini",
            ObjectType::t_0x2 => "t_0x2",
            ObjectType::dup => "dup",
            ObjectType::wor => "wor",
            ObjectType::wot => "wot",
            ObjectType::woc => "woc",
            ObjectType::gol => "gol",
            ObjectType::ioi => "ioi",
            ObjectType::wal => "wal",
            ObjectType::lay => "lay",
            ObjectType::rec => "rec",
            ObjectType::rsy => "rsy",
            ObjectType::gao => "gao",
            ObjectType::way => "way",
            ObjectType::nas => "nas",
            ObjectType::cur => "cur",
            ObjectType::wel => "wel",
            ObjectType::gtm => "gtm",
            ObjectType::seq => "seq",
            ObjectType::cov => "cov",
            ObjectType::vgl => "vgl",
            ObjectType::vgc => "vgc",
            ObjectType::vgg => "vgg",
            ObjectType::ssq => "ssq",
            ObjectType::got => "got",
            ObjectType::t_0x1A => "t_0x1A",
            ObjectType::msh => "msh",
            ObjectType::vxc => "vxc",
            ObjectType::vxt => "vxt",
            ObjectType::mat => "mat",
            ObjectType::sha => "sha",
            ObjectType::tga => "tga",
            ObjectType::txs => "txs",
            ObjectType::t_0x22 => "t_0x22",
            ObjectType::ske => "ske",
            ObjectType::sfx => "sfx",
            ObjectType::vid => "vid",
            ObjectType::shd => "shd",
            ObjectType::she => "she",
            ObjectType::dst => "dst",
            ObjectType::cub => "cub",
            ObjectType::zc => "zc",
            ObjectType::tes => "tes",
            ObjectType::tsc => "tsc",
            ObjectType::mgm => "mgm",
            ObjectType::mgb => "mgb",
            ObjectType::mft => "mft",
            ObjectType::acb => "acb",
            ObjectType::act => "act",
            ObjectType::ani => "ani",
            ObjectType::aev => "aev",
            ObjectType::snk => "snk",
            ObjectType::t_0x35 => "t_0x35",
            ObjectType::t_0x36 => "t_0x36",
            ObjectType::t_0x37 => "t_0x37",
            ObjectType::t_0x38 => "t_0x38",
            ObjectType::t_0x39 => "t_0x39",
            ObjectType::t_0x3A => "t_0x3A",
            ObjectType::t_0x3B => "t_0x3B",
            ObjectType::end => "end",
            ObjectType::sam => "sam",
            ObjectType::sin => "sin",
            ObjectType::smx => "smx",
            ObjectType::svs => "svs",
            ObjectType::t_0x41 => "t_0x41",
            ObjectType::t_0x42 => "t_0x42",
            ObjectType::t_0x43 => "t_0x43",
            ObjectType::t_0x44 => "t_0x44",
            ObjectType::t_0x45 => "t_0x45",
            ObjectType::t_0x46 => "t_0x46",
            ObjectType::ai => "ai",
            ObjectType::aid => "aid",
            ObjectType::ste => "ste",
            ObjectType::fcf => "fcf",
            ObjectType::var => "var",
            ObjectType::aiv => "aiv",
            ObjectType::stt => "stt",
            ObjectType::zar => "zar",
            ObjectType::zon => "zon",
            ObjectType::col => "col",
            ObjectType::cot => "cot",
            ObjectType::gml => "gml",
            ObjectType::gmt => "gmt",
            ObjectType::phs => "phs",
            ObjectType::t_0x55 => "t_0x55",
            ObjectType::ccm => "ccm",
            ObjectType::dbk => "dbk",
            ObjectType::dbl => "dbl",
            ObjectType::dbr => "dbr",
            ObjectType::edi => "edi",
            ObjectType::hel => "hel",
            ObjectType::hsl => "hsl",
            ObjectType::his => "his",
            ObjectType::mta => "mta",
            ObjectType::wil => "wil",
            ObjectType::t_0x60 => "t_0x60",
            ObjectType::ymf => "ymf",
            ObjectType::t_0x62 => "t_0x62",
            ObjectType::fbx => "fbx",
            ObjectType::dds => "dds",
            ObjectType::png => "png",
            ObjectType::bmp => "bmp",
            ObjectType::jpg => "jpg",
            ObjectType::ppm => "ppm",
            ObjectType::grd => "grd",
            ObjectType::dlc => "dlc",
            ObjectType::ymt => "ymt",
            ObjectType::par => "par",
            ObjectType::ard => "ard",
            ObjectType::med => "med",
            ObjectType::lab => "lab",
            ObjectType::feu => "feu",
            ObjectType::ffd => "ffd",
            ObjectType::top => "top",
            ObjectType::msd => "msd",
            ObjectType::nav => "nav",
            ObjectType::skp => "skp",
            ObjectType::ago => "ago",
            ObjectType::afx => "afx",
            ObjectType::abk => "abk",
            ObjectType::cst => "cst",
            ObjectType::syw => "syw",
            ObjectType::sym => "sym",
            ObjectType::aer => "aer",
            ObjectType::ghk => "ghk",
            ObjectType::txd => "txd",
            ObjectType::fbk => "fbk",
            ObjectType::pfx => "pfx",
            ObjectType::eps => "eps",
            ObjectType::psh => "psh",
            ObjectType::epl => "epl",
            ObjectType::lgr => "lgr",
            ObjectType::acp => "acp",
            ObjectType::ask => "ask",
            ObjectType::swl => "swl",
            ObjectType::ano => "ano",
            ObjectType::ann => "ann",
            ObjectType::rsf => "rsf",
            ObjectType::led => "led",
            ObjectType::shg => "shg",
            ObjectType::cld => "cld",
            ObjectType::dtb => "dtb",
            ObjectType::otf => "otf",
            ObjectType::ttf => "ttf",
            ObjectType::adf => "adf",
            ObjectType::pco => "pco",
            ObjectType::t_0x93 => "t_0x93",
            ObjectType::t_0x94 => "t_0x94",
        }
    }

    /// The bytes of this object type's name.
    pub fn name_bytes(&self) -> (r: Vec<u8>)
        ensures
            r@ == object_type_name_bytes(*self),
            r@.len() <= 6,
    {
        match self {
            ObjectType::null => vec![110u8, 117u8, 108u8, 108u8],
            ObjectType::ini => vec![105u8, 110u8, 105u8],
            ObjectType::t_0x2 => vec![116u8, 95u8, 48u8, 120u8, 50u8],
            ObjectType::dup => vec![100u8, 117u8, 112u8],
            ObjectType::wor => vec![119u8, 111u8, 114u8],
            ObjectType::wot => vec![119u8, 111u8, 116u8],
            ObjectType::woc => vec![119u8, 111u8, 99u8],
            ObjectType::gol => vec![103u8, 111u8, 108u8],
            ObjectType::ioi => vec![105u8, 111u8, 105u8],
            ObjectType::wal => vec![119u8, 97u8, 108u8],
            ObjectType::lay => vec![108u8, 97u8, 121u8],
            ObjectType::rec => vec![114u8, 101u8, 99u8],
            ObjectType::rsy => vec![114u8, 115u8, 121u8],
            ObjectType::gao => vec![103u8, 97u8, 111u8],
            ObjectType::way => vec![119u8, 97u8, 121u8],
            ObjectType::nas => vec![110u8, 97u8, 115u8],
            ObjectType::cur => vec![99u8, 117u8, 114u8],
            ObjectType::wel => vec![119u8, 101u8, 108u8],
            ObjectType::gtm => vec![103u8, 116u8, 109u8],
            ObjectType::seq => vec![115u8, 101u8, 113u8],
            ObjectType::cov => vec![99u8, 111u8, 118u8],
            ObjectType::vgl => vec![118u8, 103u8, 108u8],
            ObjectType::vgc => vec![118u8, 103u8, 99u8],
            ObjectType::vgg => vec![118u8, 103u8, 103u8],
            ObjectType::ssq => vec![115u8, 115u8, 113u8],
            ObjectType::got => vec![103u8, 111u8, 116u8],
            ObjectType::t_0x1A => vec![116u8, 95u8, 48u8, 120u8, 49u8, 65u8],
            ObjectType::msh => vec![109u8, 115u8, 104u8],
            ObjectType::vxc => vec![118u8, 120u8, 99u8],
            ObjectType::vxt => vec![118u8, 120u8, 116u8],
            ObjectType::mat => vec![109u8, 97u8, 116u8],
            ObjectType::sha => vec![115u8, 104u8, 97u8],
            ObjectType::tga => vec![116u8, 103u8, 97u8],
            ObjectType::txs => vec![116u8, 120u8, 115u8],
            ObjectType::t_0x22 => vec![116u8, 95u8, 48u8, 120u8, 50u8, 50u8],
            ObjectType::ske => vec![115u8, 107u8, 101u8],
            ObjectType::sfx => vec![115u8, 102u8, 120u8],
            ObjectType::vid => vec![118u8, 105u8, 100u8],
            ObjectType::shd => vec![115u8, 104u8, 100u8],
            ObjectType::she => vec![115u8, 104u8, 101u8],
            ObjectType::dst => vec![100u8, 115u8, 116u8],
            ObjectType::cub => vec![99u8, 117u8, 98u8],
            ObjectType::zc => vec![122u8, 99u8],
            ObjectType::tes => vec![116u8, 101u8, 115u8],
            ObjectType::tsc => vec![116u8, 115u8, 99u8],
            ObjectType::mgm => vec![109u8, 103u8, 109u8],
            ObjectType::mgb => vec![109u8, 103u8, 98u8],
            ObjectType::mft => vec![109u8, 102u8, 116u8],
            ObjectType::acb => vec![97u8, 99u8, 98u8],
            ObjectType::act => vec![97u8, 99u8, 116u8],
            ObjectType::ani => vec![97u8, 110u8, 105u8],
            ObjectType::aev => vec![97u8, 101u8, 118u8],
            ObjectType::snk => vec![115u8, 110u8, 107u8],
            ObjectType::t_0x35 => vec![116u8, 95u8, 48u8, 120u8, 51u8, 53u8],
            ObjectType::t_0x36 => vec![116u8, 95u8, 48u8, 120u8, 51u8, 54u8],
            ObjectType::t_0x37 => vec![116u8, 95u8, 48u8, 120u8, 51u8, 55u8],
            ObjectType::t_0x38 => vec![116u8, 95u8, 48u8, 120u8, 51u8, 56u8],
            ObjectType::t_0x39 => vec![116u8, 95u8, 48u8, 120u8, 51u8, 57u8],
            ObjectType::t_0x3A => vec![116u8, 95u8, 48u8, 120u8, 51u8, 65u8],
            ObjectType::t_0x3B => vec![116u8, 95u8, 48u8, 120u8, 51u8, 66u8],
            ObjectType::end => vec![101u8, 110u8, 100u8],
            ObjectType::sam => vec![115u8, 97u8, 109u8],
            ObjectType::sin => vec![115u8, 105u8, 110u8],
            ObjectType::smx => vec![115u8, 109u8, 120u8],
            ObjectType::svs => vec![115u8, 118u8, 115u8],
            ObjectType::t_0x41 => vec![116u8, 95u8, 48u8, 120u8, 52u8, 49u8],
            ObjectType::t_0x42 => vec![116u8, 95u8, 48u8, 120u8, 52u8, 50u8],
            ObjectType::t_0x43 => vec![116u8, 95u8, 48u8, 120u8, 52u8, 51u8],
            ObjectType::t_0x44 => vec![116u8, 95u8, 48u8, 120u8, 52u8, 52u8],
            ObjectType::t_0x45 => vec![116u8, 95u8, 48u8, 120u8, 52u8, 53u8],
            ObjectType::t_0x46 => vec![116u8, 95u8, 48u8, 120u8, 52u8, 54u8],
            ObjectType::ai => vec![97u8, 105u8],
            ObjectType::aid => vec![97u8, 105u8, 100u8],
            ObjectType::ste => vec![115u8, 116u8, 101u8],
            ObjectType::fcf => vec![102u8, 99u8, 102u8],
            ObjectType::var => vec![118u8, 97u8, 114u8],
            ObjectType::aiv => vec![97u8, 105u8, 118u8],
            ObjectType::stt => vec![115u8, 116u8, 116u8],
            ObjectType::zar => vec![122u8, 97u8, 114u8],
            ObjectType::zon => vec![122u8, 111u8, 110u8],
            ObjectType::col => vec![99u8, 111u8, 108u8],
            ObjectType::cot => vec![99u8, 111u8, 116u8],
            ObjectType::gml => vec![103u8, 109u8, 108u8],
            ObjectType::gmt => vec![103u8, 109u8, 116u8],
            ObjectType::phs => vec![112u8, 104u8, 115u8],
            ObjectType::t_0x55 => vec![116u8, 95u8, 48u8, 120u8, 53u8, 53u8],
            ObjectType::ccm => vec![99u8, 99u8, 109u8],
            ObjectType::dbk => vec![100u8, 98u8, 107u8],
            ObjectType::dbl => vec![100u8, 98u8, 108u8],
            ObjectType::dbr => vec![100u8, 98u8, 114u8],
            ObjectType::edi => vec![101u8, 100u8, 105u8],
            ObjectType::hel => vec![104u8, 101u8, 108u8],
            ObjectType::hsl => vec![104u8, 115u8, 108u8],
            ObjectType::his => vec![104u8, 105u8, 115u8],
            ObjectType::mta => vec![109u8, 116u8, 97u8],
            ObjectType::wil => vec![119u8, 105u8, 108u8],
            ObjectType::t_0x60 => vec![116u8, 95u8, 48u8, 120u8, 54u8, 48u8],
            ObjectType::ymf => vec![121u8, 109u8, 102u8],
            ObjectType::t_0x62 => vec![116u8, 95u8, 48u8, 120u8, 54u8, 50u8],
            ObjectType::fbx => vec![102u8, 98u8, 120u8],
            ObjectType::dds => vec![100u8, 100u8, 115u8],
            ObjectType::png => vec![112u8, 110u8, 103u8],
            ObjectType::bmp => vec![98u8, 109u8, 112u8],
            ObjectType::jpg => vec![106u8, 112u8, 103u8],
            ObjectType::ppm => vec![112u8, 112u8, 109u8],
            ObjectType::grd => vec![103u8, 114u8, 100u8],
            ObjectType::dlc => vec![100u8, 108u8, 99u8],
            ObjectType::ymt => vec![121u8, 109u8, 116u8],
            ObjectType::par => vec![112u8, 97u8, 114u8],
            ObjectType::ard => vec![97u8, 114u8, 100u8],
            ObjectType::med => vec![109u8, 101u8, 100u8],
            ObjectType::lab => vec![108u8, 97u8, 98u8],
            ObjectType::feu => vec![102u8, 101u8, 117u8],
            ObjectType::ffd => vec![102u8, 102u8, 100u8],
            ObjectType::top => vec![116u8, 111u8, 112u8],
            ObjectType::msd => vec![109u8, 115u8, 100u8],
            ObjectType::nav => vec![110u8, 97u8, 118u8],
            ObjectType::skp => vec![115u8, 107u8, 112u8],
            ObjectType::ago => vec![97u8, 103u8, 111u8],
            ObjectType::afx => vec![97u8, 102u8, 120u8],
            ObjectType::abk => vec![97u8, 98u8, 107u8],
            ObjectType::cst => vec![99u8, 115u8, 116u8],
            ObjectType::syw => vec![115u8, 121u8, 119u8],
            ObjectType::sym => vec![115u8, 121u8, 109u8],
            ObjectType::aer => vec![97u8, 101u8, 114u8],
            ObjectType::ghk => vec![103u8, 104u8, 107u8],
            ObjectType::txd => vec![116u8, 120u8, 100u8],
            ObjectType::fbk => vec![102u8, 98u8, 107u8],
            ObjectType::pfx => vec![112u8, 102u8, 120u8],
            ObjectType::eps => vec![101u8, 112u8, 115u8],
            ObjectType::psh => vec![112u8, 115u8, 104u8],
            ObjectType::epl => vec![101u8, 112u8, 108u8],
            ObjectType::lgr => vec![108u8, 103u8, 114u8],
            ObjectType::acp => vec![97u8, 99u8, 112u8],
            ObjectType::ask => vec![97u8, 115u8, 107u8],
            ObjectType::swl => vec![115u8, 119u8, 108u8],
            ObjectType::ano => vec![97u8, 110u8, 111u8],
            ObjectType::ann => vec![97u8, 110u8, 110u8],
            ObjectType::rsf => vec![114u8, 115u8, 102u8],
            ObjectType::led => vec![108u8, 101u8, 100u8],
            ObjectType::shg => vec![115u8, 104u8, 103u8],
            ObjectType::cld => vec![99u8, 108u8, 100u8],
            ObjectType::dtb => vec![100u8, 116u8, 98u8],
            ObjectType::otf => vec![111u8, 116u8, 102u8],
            ObjectType::ttf => vec![116u8, 116u8, 102u8],
            ObjectType::adf => vec![97u8, 100u8, 102u8],
            ObjectType::pco => vec![112u8, 99u8, 111u8],
            ObjectType::t_0x93 => vec![116u8, 95u8, 48u8, 120u8, 57u8, 51u8],
            ObjectType::t_0x94 => vec![116u8, 95u8, 48u8, 120u8, 57u8, 52u8],
        }
    }

    pub fn is_tga(&self) -> (r: bool)
        ensures
            r == (*self == ObjectType::tga),
    {
        match self {
            ObjectType::tga => true,
            _ => false,
        }
    }

    pub fn is_gao(&self) -> (r: bool)
        ensures
            r == (*self == ObjectType::gao),
    {
        match self {
            ObjectType::gao => true,
            _ => false,
        }
    }
}

} // verus!
