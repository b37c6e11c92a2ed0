//! Pantone Coated catalogue: approximate sRGB values for Pantone Coated (C)
//! colours, keyed by Pantone number, and the lookup of a spot ink's name in it.

use vstd::prelude::*;
use crate::text::chars_of;

verus! {

pub open spec fn entry_views(v: Seq<(&'static str, &'static str)>) -> Seq<(Seq<char>, Seq<char>)> {
    v.map_values(|e: (&'static str, &'static str)| (e.0@, e.1@))
}

pub open spec fn catalogue_part_0() -> Seq<(Seq<char>, Seq<char>)> {
    seq![
        ("100"@, "F4ED7C"@),
        ("101"@, "F4ED47"@),
        ("102"@, "F9E526"@),
        ("103"@, "C6AD0F"@),
        ("104"@, "A99200"@),
        ("105"@, "897A0B"@),
        ("106"@, "F6E619"@),
        ("107"@, "F5E012"@),
        ("108"@, "F4D900"@),
        ("109"@, "F2CC00"@),
        ("110"@, "E0B800"@),
        ("111"@, "C8A400"@),
        ("112"@, "B59500"@),
        ("113"@, "F5E642"@),
        ("114"@, "F5E13C"@),
        ("115"@, "F5DC3C"@),
        ("116"@, "FFCD00"@),
        ("117"@, "D89A00"@),
        ("118"@, "B88200"@),
        ("119"@, "8C6400"@),
        ("120"@, "FAE171"@),
        ("121"@, "FAD95A"@),
        ("122"@, "FAD048"@),
        ("123"@, "FFC72C"@),
        ("124"@, "EAA900"@),
        ("125"@, "C48C00"@),
        ("126"@, "A07400"@),
        ("127"@, "F5E27A"@),
        ("128"@, "F5D85C"@),
        ("129"@, "F5CB3C"@),
        ("130"@, "F5A800"@),
        ("131"@, "D48900"@),
        ("132"@, "A87000"@),
        ("133"@, "785200"@),
        ("134"@, "FADE8C"@),
        ("135"@, "FAD274"@),
        ("136"@, "FAC257"@),
        ("137"@, "F5A623"@),
        ("138"@, "D48800"@),
        ("139"@, "A07200"@),
        ("140"@, "7A5500"@),
        ("141"@, "F5DA8C"@),
        ("142"@, "F5CC70"@),
        ("143"@, "F5BC50"@),
        ("144"@, "F08300"@),
        ("145"@, "CF6F00"@),
        ("146"@, "A15B00"@),
        ("147"@, "704800"@),
        ("148"@, "FAD9A8"@),
        ("149"@, "FAC880"@),
    ]
}

fn push_part_0(v: &mut Vec<(&'static str, &'static str)>)
    ensures
        entry_views(final(v)@) == entry_views(old(v)@) + catalogue_part_0(),
{
    v.push(("100", "F4ED7C"));
    v.push(("101", "F4ED47"));
    v.push(("102", "F9E526"));
    v.push(("103", "C6AD0F"));
    v.push(("104", "A99200"));
    v.push(("105", "897A0B"));
    v.push(("106", "F6E619"));
    v.push(("107", "F5E012"));
    v.push(("108", "F4D900"));
    v.push(("109", "F2CC00"));
    v.push(("110", "E0B800"));
    v.push(("111", "C8A400"));
    v.push(("112", "B59500"));
    v.push(("113", "F5E642"));
    v.push(("114", "F5E13C"));
    v.push(("115", "F5DC3C"));
    v.push(("116", "FFCD00"));
    v.push(("117", "D89A00"));
    v.push(("118", "B88200"));
    v.push(("119", "8C6400"));
    v.push(("120", "FAE171"));
    v.push(("121", "FAD95A"));
    v.push(("122", "FAD048"));
    v.push(("123", "FFC72C"));
    v.push(("124", "EAA900"));
    v.push(("125", "C48C00"));
    v.push(("126", "A07400"));
    v.push(("127", "F5E27A"));
    v.push(("128", "F5D85C"));
    v.push(("129", "F5CB3C"));
    v.push(("130", "F5A800"));
    v.push(("131", "D48900"));
    v.push(("132", "A87000"));
    v.push(("133", "785200"));
    v.push(("134", "FADE8C"));
    v.push(("135", "FAD274"));
    v.push(("136", "FAC257"));
    v.push(("137", "F5A623"));
    v.push(("138", "D48800"));
    v.push(("139", "A07200"));
    v.push(("140", "7A5500"));
    v.push(("141", "F5DA8C"));
    v.push(("142", "F5CC70"));
    v.push(("143", "F5BC50"));
    v.push(("144", "F08300"));
    v.push(("145", "CF6F00"));
    v.push(("146", "A15B00"));
    v.push(("147", "704800"));
    v.push(("148", "FAD9A8"));
    v.push(("149", "FAC880"));
    assert(entry_views(v@) =~= entry_views(old(v)@) + catalogue_part_0());
}

pub open spec fn catalogue_part_1() -> Seq<(Seq<char>, Seq<char>)> {
    seq![
        ("150"@, "FAB25A"@),
        ("151"@, "FA7A14"@),
        ("152"@, "D96D00"@),
        ("153"@, "B35A00"@),
        ("154"@, "8C4700"@),
        ("155"@, "FADE9E"@),
        ("156"@, "FAC87E"@),
        ("157"@, "FAB55C"@),
        ("158"@, "FA6816"@),
        ("159"@, "C64B00"@),
        ("160"@, "7D3D00"@),
        ("161"@, "5A2D0C"@),
        ("162"@, "FABE96"@),
        ("163"@, "FA9E6C"@),
        ("164"@, "FA8040"@),
        ("165"@, "FF6900"@),
        ("166"@, "E05C00"@),
        ("167"@, "B04500"@),
        ("168"@, "7A2E0A"@),
        ("169"@, "F4B8A0"@),
        ("170"@, "F49678"@),
        ("171"@, "F46E45"@),
        ("172"@, "F25C28"@),
        ("173"@, "CF4520"@),
        ("174"@, "99391A"@),
        ("175"@, "7A2C15"@),
        ("176"@, "F2B8AE"@),
        ("177"@, "F28C82"@),
        ("178"@, "F26859"@),
        ("179"@, "EF3A20"@),
        ("180"@, "CF3520"@),
        ("181"@, "A02018"@),
        ("182"@, "F5B8B8"@),
        ("183"@, "F59090"@),
        ("184"@, "F56878"@),
        ("185"@, "EF3340"@),
        ("186"@, "CF2A2A"@),
        ("187"@, "A82020"@),
        ("188"@, "7A1818"@),
        ("189"@, "F5A8B8"@),
        ("190"@, "F580A8"@),
        ("191"@, "F560A0"@),
        ("192"@, "F02057"@),
        ("193"@, "C51547"@),
        ("194"@, "A01040"@),
        ("195"@, "7A0C30"@),
        ("196"@, "F5B8C8"@),
        ("197"@, "F590B0"@),
        ("198"@, "F56895"@),
        ("199"@, "EF2060"@),
    ]
}

fn push_part_1(v: &mut Vec<(&'static str, &'static str)>)
    ensures
        entry_views(final(v)@) == entry_views(old(v)@) + catalogue_part_1(),
{
    v.push(("150", "FAB25A"));
    v.push(("151", "FA7A14"));
    v.push(("152", "D96D00"));
    v.push(("153", "B35A00"));
    v.push(("154", "8C4700"));
    v.push(("155", "FADE9E"));
    v.push(("156", "FAC87E"));
    v.push(("157", "FAB55C"));
    v.push(("158", "FA6816"));
    v.push(("159", "C64B00"));
    v.push(("160", "7D3D00"));
    v.push(("161", "5A2D0C"));
    v.push(("162", "FABE96"));
    v.push(("163", "FA9E6C"));
    v.push(("164", "FA8040"));
    v.push(("165", "FF6900"));
    v.push(("166", "E05C00"));
    v.push(("167", "B04500"));
    v.push(("168", "7A2E0A"));
    v.push(("169", "F4B8A0"));
    v.push(("170", "F49678"));
    v.push(("171", "F46E45"));
    v.push(("172", "F25C28"));
    v.push(("173", "CF4520"));
    v.push(("174", "99391A"));
    v.push(("175", "7A2C15"));
    v.push(("176", "F2B8AE"));
    v.push(("177", "F28C82"));
    v.push(("178", "F26859"));
    v.push(("179", "EF3A20"));
    v.push(("180", "CF3520"));
    v.push(("181", "A02018"));
    v.push(("182", "F5B8B8"));
    v.push(("183", "F59090"));
    v.push(("184", "F56878"));
    v.push(("185", "EF3340"));
    v.push(("186", "CF2A2A"));
    v.push(("187", "A82020"));
    v.push(("188", "7A1818"));
    v.push(("189", "F5A8B8"));
    v.push(("190", "F580A8"));
    v.push(("191", "F560A0"));
    v.push(("192", "F02057"));
    v.push(("193", "C51547"));
    v.push(("194", "A01040"));
    v.push(("195", "7A0C30"));
    v.push(("196", "F5B8C8"));
    v.push(("197", "F590B0"));
    v.push(("198", "F56895"));
    v.push(("199", "EF2060"));
    assert(entry_views(v@) =~= entry_views(old(v)@) + catalogue_part_1());
}

pub open spec fn catalogue_part_2() -> Seq<(Seq<char>, Seq<char>)> {
    seq![
        ("200"@, "CC2244"@),
        ("201"@, "A01830"@),
        ("202"@, "7A1422"@),
        ("203"@, "F5A8C8"@),
        ("204"@, "F580B0"@),
        ("205"@, "F05895"@),
        ("206"@, "EE1163"@),
        ("207"@, "C4004B"@),
        ("208"@, "9A003A"@),
        ("209"@, "7A002B"@),
        ("210"@, "F5A0CC"@),
        ("211"@, "F078B4"@),
        ("212"@, "EA5094"@),
        ("213"@, "E8006B"@),
        ("214"@, "C4005A"@),
        ("215"@, "9A0048"@),
        ("216"@, "7A0038"@),
        ("217"@, "F0A8D8"@),
        ("218"@, "E87CC0"@),
        ("219"@, "E050A0"@),
        ("220"@, "CC3C8C"@),
        ("221"@, "A22874"@),
        ("222"@, "7A1858"@),
        ("223"@, "ECA0D0"@),
        ("224"@, "E878BC"@),
        ("225"@, "E050A8"@),
        ("226"@, "DE008C"@),
        ("227"@, "BA0076"@),
        ("228"@, "940060"@),
        ("229"@, "7A004E"@),
        ("230"@, "F0A8E0"@),
        ("231"@, "EC80CC"@),
        ("232"@, "E850B8"@),
        ("233"@, "D200A0"@),
        ("234"@, "B00086"@),
        ("235"@, "90006E"@),
        ("236"@, "F4B4E8"@),
        ("237"@, "F090D8"@),
        ("238"@, "EC68C8"@),
        ("239"@, "E848B8"@),
        ("240"@, "D428A0"@),
        ("241"@, "B01C8C"@),
        ("242"@, "8C1474"@),
        ("243"@, "EFB0E0"@),
        ("244"@, "EC90D0"@),
        ("245"@, "E868C0"@),
        ("246"@, "D500A0"@),
        ("247"@, "B40088"@),
        ("248"@, "950072"@),
        ("249"@, "780060"@),
    ]
}

fn push_part_2(v: &mut Vec<(&'static str, &'static str)>)
    ensures
        entry_views(final(v)@) == entry_views(old(v)@) + catalogue_part_2(),
{
    v.push(("200", "CC2244"));
    v.push(("201", "A01830"));
    v.push(("202", "7A1422"));
    v.push(("203", "F5A8C8"));
    v.push(("204", "F580B0"));
    v.push(("205", "F05895"));
    v.push(("206", "EE1163"));
    v.push(("207", "C4004B"));
    v.push(("208", "9A003A"));
    v.push(("209", "7A002B"));
    v.push(("210", "F5A0CC"));
    v.push(("211", "F078B4"));
    v.push(("212", "EA5094"));
    v.push(("213", "E8006B"));
    v.push(("214", "C4005A"));
    v.push(("215", "9A0048"));
    v.push(("216", "7A0038"));
    v.push(("217", "F0A8D8"));
    v.push(("218", "E87CC0"));
    v.push(("219", "E050A0"));
    v.push(("220", "CC3C8C"));
    v.push(("221", "A22874"));
    v.push(("222", "7A1858"));
    v.push(("223", "ECA0D0"));
    v.push(("224", "E878BC"));
    v.push(("225", "E050A8"));
    v.push(("226", "DE008C"));
    v.push(("227", "BA0076"));
    v.push(("228", "940060"));
    v.push(("229", "7A004E"));
    v.push(("230", "F0A8E0"));
    v.push(("231", "EC80CC"));
    v.push(("232", "E850B8"));
    v.push(("233", "D200A0"));
    v.push(("234", "B00086"));
    v.push(("235", "90006E"));
    v.push(("236", "F4B4E8"));
    v.push(("237", "F090D8"));
    v.push(("238", "EC68C8"));
    v.push(("239", "E848B8"));
    v.push(("240", "D428A0"));
    v.push(("241", "B01C8C"));
    v.push(("242", "8C1474"));
    v.push(("243", "EFB0E0"));
    v.push(("244", "EC90D0"));
    v.push(("245", "E868C0"));
    v.push(("246", "D500A0"));
    v.push(("247", "B40088"));
    v.push(("248", "950072"));
    v.push(("249", "780060"));
    assert(entry_views(v@) =~= entry_views(old(v)@) + catalogue_part_2());
}

pub open spec fn catalogue_part_3() -> Seq<(Seq<char>, Seq<char>)> {
    seq![
        ("250"@, "F0B8E8"@),
        ("251"@, "EE98DC"@),
        ("252"@, "EC74CC"@),
        ("253"@, "CC44B0"@),
        ("254"@, "A42898"@),
        ("255"@, "841480"@),
        ("256"@, "DAAAE0"@),
        ("257"@, "D090D4"@),
        ("258"@, "B86AB8"@),
        ("259"@, "8C3A96"@),
        ("260"@, "743084"@),
        ("261"@, "622873"@),
        ("262"@, "4E2060"@),
        ("263"@, "D4B8E0"@),
        ("264"@, "C4A0D4"@),
        ("265"@, "AC7EC0"@),
        ("266"@, "9054A8"@),
        ("267"@, "7B3798"@),
        ("268"@, "642880"@),
        ("269"@, "4E2069"@),
        ("270"@, "C0B0D8"@),
        ("271"@, "B098CC"@),
        ("272"@, "9C80BC"@),
        ("273"@, "7050A0"@),
        ("274"@, "582878"@),
        ("275"@, "401860"@),
        ("276"@, "9898CC"@),
        ("277"@, "A0C0E0"@),
        ("278"@, "90B4DC"@),
        ("279"@, "6094CC"@),
        ("280"@, "1B3A8A"@),
        ("281"@, "1B327A"@),
        ("282"@, "152860"@),
        ("283"@, "8CB8E0"@),
        ("284"@, "70A8D8"@),
        ("285"@, "4898CE"@),
        ("286"@, "0033A0"@),
        ("287"@, "003087"@),
        ("288"@, "002D72"@),
        ("289"@, "001A4B"@),
        ("290"@, "B8D8EC"@),
        ("291"@, "9CCCEC"@),
        ("292"@, "80BCEC"@),
        ("293"@, "0065BD"@),
        ("294"@, "00529A"@),
        ("295"@, "003878"@),
        ("296"@, "002055"@),
        ("297"@, "A0D0EC"@),
        ("298"@, "80C8EC"@),
        ("299"@, "60B8E8"@),
    ]
}

fn push_part_3(v: &mut Vec<(&'static str, &'static str)>)
    ensures
        entry_views(final(v)@) == entry_views(old(v)@) + catalogue_part_3(),
{
    v.push(("250", "F0B8E8"));
    v.push(("251", "EE98DC"));
    v.push(("252", "EC74CC"));
    v.push(("253", "CC44B0"));
    v.push(("254", "A42898"));
    v.push(("255", "841480"));
    v.push(("256", "DAAAE0"));
    v.push(("257", "D090D4"));
    v.push(("258", "B86AB8"));
    v.push(("259", "8C3A96"));
    v.push(("260", "743084"));
    v.push(("261", "622873"));
    v.push(("262", "4E2060"));
    v.push(("263", "D4B8E0"));
    v.push(("264", "C4A0D4"));
    v.push(("265", "AC7EC0"));
    v.push(("266", "9054A8"));
    v.push(("267", "7B3798"));
    v.push(("268", "642880"));
    v.push(("269", "4E2069"));
    v.push(("270", "C0B0D8"));
    v.push(("271", "B098CC"));
    v.push(("272", "9C80BC"));
    v.push(("273", "7050A0"));
    v.push(("274", "582878"));
    v.push(("275", "401860"));
    v.push(("276", "9898CC"));
    v.push(("277", "A0C0E0"));
    v.push(("278", "90B4DC"));
    v.push(("279", "6094CC"));
    v.push(("280", "1B3A8A"));
    v.push(("281", "1B327A"));
    v.push(("282", "152860"));
    v.push(("283", "8CB8E0"));
    v.push(("284", "70A8D8"));
    v.push(("285", "4898CE"));
    v.push(("286", "0033A0"));
    v.push(("287", "003087"));
    v.push(("288", "002D72"));
    v.push(("289", "001A4B"));
    v.push(("290", "B8D8EC"));
    v.push(("291", "9CCCEC"));
    v.push(("292", "80BCEC"));
    v.push(("293", "0065BD"));
    v.push(("294", "00529A"));
    v.push(("295", "003878"));
    v.push(("296", "002055"));
    v.push(("297", "A0D0EC"));
    v.push(("298", "80C8EC"));
    v.push(("299", "60B8E8"));
    assert(entry_views(v@) =~= entry_views(old(v)@) + catalogue_part_3());
}

pub open spec fn catalogue_part_4() -> Seq<(Seq<char>, Seq<char>)> {
    seq![
        ("300"@, "0057A8"@),
        ("301"@, "004B87"@),
        ("302"@, "003865"@),
        ("303"@, "002848"@),
        ("304"@, "A0D8E8"@),
        ("305"@, "78CCEC"@),
        ("306"@, "50C0ED"@),
        ("307"@, "0081A8"@),
        ("308"@, "006C90"@),
        ("309"@, "004860"@),
        ("310"@, "88D8EC"@),
        ("311"@, "60D0EC"@),
        ("312"@, "00B0D8"@),
        ("313"@, "0096C8"@),
        ("314"@, "0082A8"@),
        ("315"@, "006889"@),
        ("316"@, "004B62"@),
        ("317"@, "C0E8EC"@),
        ("318"@, "A0E0EC"@),
        ("319"@, "70D4EC"@),
        ("320"@, "009B9E"@),
        ("321"@, "008690"@),
        ("322"@, "006D76"@),
        ("323"@, "005A62"@),
        ("324"@, "A8E0DC"@),
        ("325"@, "80D8D4"@),
        ("326"@, "50CCCA"@),
        ("327"@, "009490"@),
        ("328"@, "007B78"@),
        ("329"@, "006462"@),
        ("330"@, "C0E8E0"@),
        ("331"@, "A0E0D8"@),
        ("332"@, "80D8CC"@),
        ("333"@, "00B4A8"@),
        ("334"@, "008A80"@),
        ("335"@, "007068"@),
        ("336"@, "006058"@),
        ("337"@, "B8E8D8"@),
        ("338"@, "98E0CC"@),
        ("339"@, "70D4BC"@),
        ("340"@, "00A880"@),
        ("341"@, "008C68"@),
        ("342"@, "007258"@),
        ("343"@, "005E48"@),
        ("344"@, "B4E0C0"@),
        ("345"@, "98D8AC"@),
        ("346"@, "78CC98"@),
        ("347"@, "00843D"@),
        ("348"@, "006747"@),
        ("349"@, "005030"@),
    ]
}

fn push_part_4(v: &mut Vec<(&'static str, &'static str)>)
    ensures
        entry_views(final(v)@) == entry_views(old(v)@) + catalogue_part_4(),
{
    v.push(("300", "0057A8"));
    v.push(("301", "004B87"));
    v.push(("302", "003865"));
    v.push(("303", "002848"));
    v.push(("304", "A0D8E8"));
    v.push(("305", "78CCEC"));
    v.push(("306", "50C0ED"));
    v.push(("307", "0081A8"));
    v.push(("308", "006C90"));
    v.push(("309", "004860"));
    v.push(("310", "88D8EC"));
    v.push(("311", "60D0EC"));
    v.push(("312", "00B0D8"));
    v.push(("313", "0096C8"));
    v.push(("314", "0082A8"));
    v.push(("315", "006889"));
    v.push(("316", "004B62"));
    v.push(("317", "C0E8EC"));
    v.push(("318", "A0E0EC"));
    v.push(("319", "70D4EC"));
    v.push(("320", "009B9E"));
    v.push(("321", "008690"));
    v.push(("322", "006D76"));
    v.push(("323", "005A62"));
    v.push(("324", "A8E0DC"));
    v.push(("325", "80D8D4"));
    v.push(("326", "50CCCA"));
    v.push(("327", "009490"));
    v.push(("328", "007B78"));
    v.push(("329", "006462"));
    v.push(("330", "C0E8E0"));
    v.push(("331", "A0E0D8"));
    v.push(("332", "80D8CC"));
    v.push(("333", "00B4A8"));
    v.push(("334", "008A80"));
    v.push(("335", "007068"));
    v.push(("336", "006058"));
    v.push(("337", "B8E8D8"));
    v.push(("338", "98E0CC"));
    v.push(("339", "70D4BC"));
    v.push(("340", "00A880"));
    v.push(("341", "008C68"));
    v.push(("342", "007258"));
    v.push(("343", "005E48"));
    v.push(("344", "B4E0C0"));
    v.push(("345", "98D8AC"));
    v.push(("346", "78CC98"));
    v.push(("347", "00843D"));
    v.push(("348", "006747"));
    v.push(("349", "005030"));
    assert(entry_views(v@) =~= entry_views(old(v)@) + catalogue_part_4());
}

pub open spec fn catalogue_part_5() -> Seq<(Seq<char>, Seq<char>)> {
    seq![
        ("350"@, "003820"@),
        ("351"@, "C0E8C4"@),
        ("352"@, "A8E0B0"@),
        ("353"@, "88D89A"@),
        ("354"@, "00A85A"@),
        ("355"@, "009A44"@),
        ("356"@, "007A3D"@),
        ("357"@, "005830"@),
        ("358"@, "C8E8A8"@),
        ("359"@, "B8E494"@),
        ("360"@, "A0DC78"@),
        ("361"@, "78CA40"@),
        ("362"@, "64A830"@),
        ("363"@, "508A28"@),
        ("364"@, "406E20"@),
        ("365"@, "CEE890"@),
        ("366"@, "C0E070"@),
        ("367"@, "A8D450"@),
        ("368"@, "78BE20"@),
        ("369"@, "68A010"@),
        ("370"@, "528400"@),
        ("371"@, "406800"@),
        ("372"@, "D8EC9C"@),
        ("373"@, "CCE888"@),
        ("374"@, "BAE06E"@),
        ("375"@, "97D700"@),
        ("376"@, "84C200"@),
        ("377"@, "6CA400"@),
        ("378"@, "548600"@),
        ("379"@, "E0EC88"@),
        ("380"@, "D4E048"@),
        ("381"@, "C8DC20"@),
        ("382"@, "B4CC00"@),
        ("383"@, "A0B800"@),
        ("384"@, "8A9E00"@),
        ("385"@, "748400"@),
        ("386"@, "EAF080"@),
        ("387"@, "E0EC68"@),
        ("388"@, "D4E440"@),
        ("389"@, "CCD800"@),
        ("390"@, "BACA00"@),
        ("391"@, "A6B800"@),
        ("392"@, "909E00"@),
        ("393"@, "EFF286"@),
        ("394"@, "EAF068"@),
        ("395"@, "E4EC48"@),
        ("396"@, "DCE800"@),
        ("397"@, "C8D400"@),
        ("398"@, "B0B800"@),
        ("399"@, "909800"@),
    ]
}

fn push_part_5(v: &mut Vec<(&'static str, &'static str)>)
    ensures
        entry_views(final(v)@) == entry_views(old(v)@) + catalogue_part_5(),
{
    v.push(("350", "003820"));
    v.push(("351", "C0E8C4"));
    v.push(("352", "A8E0B0"));
    v.push(("353", "88D89A"));
    v.push(("354", "00A85A"));
    v.push(("355", "009A44"));
    v.push(("356", "007A3D"));
    v.push(("357", "005830"));
    v.push(("358", "C8E8A8"));
    v.push(("359", "B8E494"));
    v.push(("360", "A0DC78"));
    v.push(("361", "78CA40"));
    v.push(("362", "64A830"));
    v.push(("363", "508A28"));
    v.push(("364", "406E20"));
    v.push(("365", "CEE890"));
    v.push(("366", "C0E070"));
    v.push(("367", "A8D450"));
    v.push(("368", "78BE20"));
    v.push(("369", "68A010"));
    v.push(("370", "528400"));
    v.push(("371", "406800"));
    v.push(("372", "D8EC9C"));
    v.push(("373", "CCE888"));
    v.push(("374", "BAE06E"));
    v.push(("375", "97D700"));
    v.push(("376", "84C200"));
    v.push(("377", "6CA400"));
    v.push(("378", "548600"));
    v.push(("379", "E0EC88"));
    v.push(("380", "D4E048"));
    v.push(("381", "C8DC20"));
    v.push(("382", "B4CC00"));
    v.push(("383", "A0B800"));
    v.push(("384", "8A9E00"));
    v.push(("385", "748400"));
    v.push(("386", "EAF080"));
    v.push(("387", "E0EC68"));
    v.push(("388", "D4E440"));
    v.push(("389", "CCD800"));
    v.push(("390", "BACA00"));
    v.push(("391", "A6B800"));
    v.push(("392", "909E00"));
    v.push(("393", "EFF286"));
    v.push(("394", "EAF068"));
    v.push(("395", "E4EC48"));
    v.push(("396", "DCE800"));
    v.push(("397", "C8D400"));
    v.push(("398", "B0B800"));
    v.push(("399", "909800"));
    assert(entry_views(v@) =~= entry_views(old(v)@) + catalogue_part_5());
}

pub open spec fn catalogue_part_6() -> Seq<(Seq<char>, Seq<char>)> {
    seq![
        ("461"@, "F0DBC0"@),
        ("462"@, "E0C890"@),
        ("463"@, "C8A878"@),
        ("464"@, "A88054"@),
        ("465"@, "8C6640"@),
        ("466"@, "F0DEC8"@),
        ("467"@, "E8CCA8"@),
        ("468"@, "D4B48C"@),
        ("469"@, "A0622C"@),
        ("470"@, "8C5020"@),
        ("471"@, "784018"@),
        ("472"@, "F8D8C0"@),
        ("473"@, "F4C8A8"@),
        ("474"@, "ECA888"@),
        ("475"@, "DC8050"@),
        ("476"@, "7A4830"@),
        ("477"@, "6C3820"@),
        ("478"@, "582C18"@),
        ("479"@, "EDD8C0"@),
        ("480"@, "E8C8A0"@),
        ("481"@, "D8A870"@),
        ("482"@, "9A6040"@),
        ("483"@, "7A4830"@),
        ("484"@, "6A3820"@),
        ("485"@, "DA291C"@),
        ("486"@, "EBA890"@),
        ("487"@, "E89070"@),
        ("488"@, "DC6840"@),
        ("489"@, "C84818"@),
        ("416"@, "C4BCAC"@),
        ("417"@, "ACA49C"@),
        ("418"@, "8C847A"@),
        ("419"@, "1A1614"@),
        ("420"@, "D4CCC4"@),
        ("421"@, "BCBCB4"@),
        ("422"@, "A4A49C"@),
        ("423"@, "8C8C84"@),
        ("424"@, "70706C"@),
        ("425"@, "4A4A46"@),
        ("426"@, "1A1A18"@),
        ("427"@, "D8D4D0"@),
        ("428"@, "C8C8C4"@),
        ("429"@, "B4B4B0"@),
        ("430"@, "909088"@),
        ("431"@, "686868"@),
        ("432"@, "404040"@),
        ("433"@, "282828"@),
        ("434"@, "E0D8D4"@),
        ("435"@, "D4CCC8"@),
        ("436"@, "C4BCBA"@),
    ]
}

fn push_part_6(v: &mut Vec<(&'static str, &'static str)>)
    ensures
        entry_views(final(v)@) == entry_views(old(v)@) + catalogue_part_6(),
{
    v.push(("461", "F0DBC0"));
    v.push(("462", "E0C890"));
    v.push(("463", "C8A878"));
    v.push(("464", "A88054"));
    v.push(("465", "8C6640"));
    v.push(("466", "F0DEC8"));
    v.push(("467", "E8CCA8"));
    v.push(("468", "D4B48C"));
    v.push(("469", "A0622C"));
    v.push(("470", "8C5020"));
    v.push(("471", "784018"));
    v.push(("472", "F8D8C0"));
    v.push(("473", "F4C8A8"));
    v.push(("474", "ECA888"));
    v.push(("475", "DC8050"));
    v.push(("476", "7A4830"));
    v.push(("477", "6C3820"));
    v.push(("478", "582C18"));
    v.push(("479", "EDD8C0"));
    v.push(("480", "E8C8A0"));
    v.push(("481", "D8A870"));
    v.push(("482", "9A6040"));
    v.push(("483", "7A4830"));
    v.push(("484", "6A3820"));
    v.push(("485", "DA291C"));
    v.push(("486", "EBA890"));
    v.push(("487", "E89070"));
    v.push(("488", "DC6840"));
    v.push(("489", "C84818"));
    v.push(("416", "C4BCAC"));
    v.push(("417", "ACA49C"));
    v.push(("418", "8C847A"));
    v.push(("419", "1A1614"));
    v.push(("420", "D4CCC4"));
    v.push(("421", "BCBCB4"));
    v.push(("422", "A4A49C"));
    v.push(("423", "8C8C84"));
    v.push(("424", "70706C"));
    v.push(("425", "4A4A46"));
    v.push(("426", "1A1A18"));
    v.push(("427", "D8D4D0"));
    v.push(("428", "C8C8C4"));
    v.push(("429", "B4B4B0"));
    v.push(("430", "909088"));
    v.push(("431", "686868"));
    v.push(("432", "404040"));
    v.push(("433", "282828"));
    v.push(("434", "E0D8D4"));
    v.push(("435", "D4CCC8"));
    v.push(("436", "C4BCBA"));
    assert(entry_views(v@) =~= entry_views(old(v)@) + catalogue_part_6());
}

pub open spec fn catalogue_part_7() -> Seq<(Seq<char>, Seq<char>)> {
    seq![
        ("437"@, "9C9090"@),
        ("438"@, "706860"@),
        ("439"@, "504840"@),
        ("440"@, "382E2A"@),
        ("Cool Gray 1"@, "E0DDD8"@),
        ("Cool Gray 2"@, "D4D2CC"@),
        ("Cool Gray 3"@, "C4C2BC"@),
        ("Cool Gray 4"@, "B4B2AC"@),
        ("Cool Gray 5"@, "A8A6A0"@),
        ("Cool Gray 6"@, "989690"@),
        ("Cool Gray 7"@, "888884"@),
        ("Cool Gray 8"@, "747472"@),
        ("Cool Gray 9"@, "626060"@),
        ("Cool Gray 10"@, "4A4848"@),
        ("Cool Gray 11"@, "383636"@),
        ("CG 1"@, "E0DDD8"@),
        ("CG 2"@, "D4D2CC"@),
        ("CG 3"@, "C4C2BC"@),
        ("CG 4"@, "B4B2AC"@),
        ("CG 5"@, "A8A6A0"@),
        ("CG 6"@, "989690"@),
        ("CG 7"@, "888884"@),
        ("CG 8"@, "747472"@),
        ("CG 9"@, "626060"@),
        ("CG 10"@, "4A4848"@),
        ("CG 11"@, "383636"@),
        ("Warm Gray 1"@, "D8D0C8"@),
        ("Warm Gray 2"@, "CCC4BC"@),
        ("Warm Gray 3"@, "BCB4AC"@),
        ("Warm Gray 4"@, "ACA49C"@),
        ("Warm Gray 5"@, "9C9488"@),
        ("Warm Gray 6"@, "8C8478"@),
        ("Warm Gray 7"@, "7C7468"@),
        ("Warm Gray 8"@, "6C6458"@),
        ("Warm Gray 9"@, "5C5448"@),
        ("Warm Gray 10"@, "4C4440"@),
        ("Warm Gray 11"@, "3C3430"@),
        ("WG 1"@, "D8D0C8"@),
        ("WG 2"@, "CCC4BC"@),
        ("WG 3"@, "BCB4AC"@),
        ("WG 4"@, "ACA49C"@),
        ("WG 5"@, "9C9488"@),
        ("WG 6"@, "8C8478"@),
        ("WG 7"@, "7C7468"@),
        ("WG 8"@, "6C6458"@),
        ("WG 9"@, "5C5448"@),
        ("WG 10"@, "4C4440"@),
        ("WG 11"@, "3C3430"@),
        ("871"@, "9C8732"@),
        ("872"@, "8C7828"@),
    ]
}

fn push_part_7(v: &mut Vec<(&'static str, &'static str)>)
    ensures
        entry_views(final(v)@) == entry_views(old(v)@) + catalogue_part_7(),
{
    v.push(("437", "9C9090"));
    v.push(("438", "706860"));
    v.push(("439", "504840"));
    v.push(("440", "382E2A"));
    v.push(("Cool Gray 1", "E0DDD8"));
    v.push(("Cool Gray 2", "D4D2CC"));
    v.push(("Cool Gray 3", "C4C2BC"));
    v.push(("Cool Gray 4", "B4B2AC"));
    v.push(("Cool Gray 5", "A8A6A0"));
    v.push(("Cool Gray 6", "989690"));
    v.push(("Cool Gray 7", "888884"));
    v.push(("Cool Gray 8", "747472"));
    v.push(("Cool Gray 9", "626060"));
    v.push(("Cool Gray 10", "4A4848"));
    v.push(("Cool Gray 11", "383636"));
    v.push(("CG 1", "E0DDD8"));
    v.push(("CG 2", "D4D2CC"));
    v.push(("CG 3", "C4C2BC"));
    v.push(("CG 4", "B4B2AC"));
    v.push(("CG 5", "A8A6A0"));
    v.push(("CG 6", "989690"));
    v.push(("CG 7", "888884"));
    v.push(("CG 8", "747472"));
    v.push(("CG 9", "626060"));
    v.push(("CG 10", "4A4848"));
    v.push(("CG 11", "383636"));
    v.push(("Warm Gray 1", "D8D0C8"));
    v.push(("Warm Gray 2", "CCC4BC"));
    v.push(("Warm Gray 3", "BCB4AC"));
    v.push(("Warm Gray 4", "ACA49C"));
    v.push(("Warm Gray 5", "9C9488"));
    v.push(("Warm Gray 6", "8C8478"));
    v.push(("Warm Gray 7", "7C7468"));
    v.push(("Warm Gray 8", "6C6458"));
    v.push(("Warm Gray 9", "5C5448"));
    v.push(("Warm Gray 10", "4C4440"));
    v.push(("Warm Gray 11", "3C3430"));
    v.push(("WG 1", "D8D0C8"));
    v.push(("WG 2", "CCC4BC"));
    v.push(("WG 3", "BCB4AC"));
    v.push(("WG 4", "ACA49C"));
    v.push(("WG 5", "9C9488"));
    v.push(("WG 6", "8C8478"));
    v.push(("WG 7", "7C7468"));
    v.push(("WG 8", "6C6458"));
    v.push(("WG 9", "5C5448"));
    v.push(("WG 10", "4C4440"));
    v.push(("WG 11", "3C3430"));
    v.push(("871", "9C8732"));
    v.push(("872", "8C7828"));
    assert(entry_views(v@) =~= entry_views(old(v)@) + catalogue_part_7());
}

pub open spec fn catalogue_part_8() -> Seq<(Seq<char>, Seq<char>)> {
    seq![
        ("873"@, "806E20"@),
        ("874"@, "9A8430"@),
        ("875"@, "8A7426"@),
        ("876"@, "7A641C"@),
        ("877"@, "8C8C8C"@),
        ("878"@, "7A7A7A"@),
        ("879"@, "6A6A6A"@),
        ("021"@, "FE5000"@),
        ("032"@, "EF3340"@),
        ("072"@, "003DA5"@),
        ("Yellow"@, "FEDD00"@),
        ("Warm Red"@, "F3432C"@),
        ("Red 032"@, "EF3340"@),
        ("Rhodamine Red"@, "E0457B"@),
        ("Rubine Red"@, "CA0044"@),
        ("Reflex Blue"@, "001489"@),
        ("Violet"@, "440099"@),
        ("Process Blue"@, "0085CA"@),
        ("Green"@, "00A651"@),
        ("Black"@, "231F20"@),
        ("801"@, "008EAA"@),
        ("802"@, "6CC24A"@),
        ("803"@, "FFEF00"@),
        ("804"@, "FF8200"@),
        ("805"@, "FF5E57"@),
        ("806"@, "FF59F8"@),
        ("807"@, "F52886"@),
        ("5005"@, "4E7B8C"@),
        ("5015"@, "3E7496"@),
        ("5025"@, "7AACB8"@),
        ("5035"@, "6E9EA8"@),
        ("5115"@, "C8A0A8"@),
        ("5125"@, "BF8C92"@),
        ("5135"@, "B07880"@),
        ("5145"@, "9C6268"@),
        ("5155"@, "C8A080"@),
        ("5165"@, "BF9068"@),
        ("5175"@, "B07850"@),
        ("5185"@, "9C6440"@),
        ("5215"@, "D8B4C0"@),
        ("5225"@, "D0A0B0"@),
        ("5235"@, "C48CA0"@),
        ("5245"@, "B87890"@),
        ("5255"@, "5A6E9A"@),
        ("5265"@, "4A5E88"@),
        ("5275"@, "3A4E76"@),
        ("5285"@, "2C3E64"@),
        ("5315"@, "A0B8C8"@),
        ("5325"@, "8AAAB8"@),
        ("5335"@, "7498A8"@),
    ]
}

fn push_part_8(v: &mut Vec<(&'static str, &'static str)>)
    ensures
        entry_views(final(v)@) == entry_views(old(v)@) + catalogue_part_8(),
{
    v.push(("873", "806E20"));
    v.push(("874", "9A8430"));
    v.push(("875", "8A7426"));
    v.push(("876", "7A641C"));
    v.push(("877", "8C8C8C"));
    v.push(("878", "7A7A7A"));
    v.push(("879", "6A6A6A"));
    v.push(("021", "FE5000"));
    v.push(("032", "EF3340"));
    v.push(("072", "003DA5"));
    v.push(("Yellow", "FEDD00"));
    v.push(("Warm Red", "F3432C"));
    v.push(("Red 032", "EF3340"));
    v.push(("Rhodamine Red", "E0457B"));
    v.push(("Rubine Red", "CA0044"));
    v.push(("Reflex Blue", "001489"));
    v.push(("Violet", "440099"));
    v.push(("Process Blue", "0085CA"));
    v.push(("Green", "00A651"));
    v.push(("Black", "231F20"));
    v.push(("801", "008EAA"));
    v.push(("802", "6CC24A"));
    v.push(("803", "FFEF00"));
    v.push(("804", "FF8200"));
    v.push(("805", "FF5E57"));
    v.push(("806", "FF59F8"));
    v.push(("807", "F52886"));
    v.push(("5005", "4E7B8C"));
    v.push(("5015", "3E7496"));
    v.push(("5025", "7AACB8"));
    v.push(("5035", "6E9EA8"));
    v.push(("5115", "C8A0A8"));
    v.push(("5125", "BF8C92"));
    v.push(("5135", "B07880"));
    v.push(("5145", "9C6268"));
    v.push(("5155", "C8A080"));
    v.push(("5165", "BF9068"));
    v.push(("5175", "B07850"));
    v.push(("5185", "9C6440"));
    v.push(("5215", "D8B4C0"));
    v.push(("5225", "D0A0B0"));
    v.push(("5235", "C48CA0"));
    v.push(("5245", "B87890"));
    v.push(("5255", "5A6E9A"));
    v.push(("5265", "4A5E88"));
    v.push(("5275", "3A4E76"));
    v.push(("5285", "2C3E64"));
    v.push(("5315", "A0B8C8"));
    v.push(("5325", "8AAAB8"));
    v.push(("5335", "7498A8"));
    assert(entry_views(v@) =~= entry_views(old(v)@) + catalogue_part_8());
}

pub open spec fn catalogue_part_9() -> Seq<(Seq<char>, Seq<char>)> {
    seq![
        ("5345"@, "608898"@),
        ("5415"@, "6A8EA0"@),
        ("5425"@, "5A7E8E"@),
        ("5435"@, "8AAAB8"@),
        ("5445"@, "7A9AA8"@),
        ("5455"@, "A8BEC8"@),
        ("5465"@, "98B0BC"@),
        ("5475"@, "6A909E"@),
        ("5485"@, "587E8C"@),
        ("5495"@, "90B0BE"@),
        ("5505"@, "80A4B0"@),
        ("5515"@, "6894A0"@),
        ("5525"@, "54808E"@),
        ("5535"@, "A0C0C8"@),
        ("5545"@, "8CB4BC"@),
        ("5555"@, "70A0A8"@),
        ("5565"@, "5A8C94"@),
        ("5575"@, "A8C8C4"@),
        ("5585"@, "98BCBA"@),
        ("5595"@, "7CACA8"@),
        ("5605"@, "6A9C98"@),
        ("5615"@, "9AB898"@),
        ("5625"@, "86A884"@),
        ("5635"@, "6C9470"@),
        ("5645"@, "587C5C"@),
        ("5655"@, "A4C4A0"@),
        ("5665"@, "8CB488"@),
        ("5675"@, "70A070"@),
        ("5685"@, "5A8860"@),
        ("5695"@, "C0D4B4"@),
        ("5705"@, "B0C8A4"@),
        ("5715"@, "98B888"@),
        ("5725"@, "84A870"@),
        ("5735"@, "AAC498"@),
        ("5745"@, "98B484"@),
        ("5755"@, "84A46E"@),
        ("5765"@, "74945C"@),
        ("5775"@, "C4D4A0"@),
        ("5785"@, "B4C890"@),
        ("5795"@, "A0B878"@),
        ("5805"@, "8CA864"@),
        ("7541"@, "D4D8DC"@),
        ("7542"@, "C0D0D4"@),
        ("7543"@, "A8B4B8"@),
        ("7544"@, "8C9CA0"@),
        ("7545"@, "5C6C72"@),
        ("7546"@, "2C3C44"@),
        ("7547"@, "1A282E"@),
    ]
}

fn push_part_9(v: &mut Vec<(&'static str, &'static str)>)
    ensures
        entry_views(final(v)@) == entry_views(old(v)@) + catalogue_part_9(),
{
    v.push(("5345", "608898"));
    v.push(("5415", "6A8EA0"));
    v.push(("5425", "5A7E8E"));
    v.push(("5435", "8AAAB8"));
    v.push(("5445", "7A9AA8"));
    v.push(("5455", "A8BEC8"));
    v.push(("5465", "98B0BC"));
    v.push(("5475", "6A909E"));
    v.push(("5485", "587E8C"));
    v.push(("5495", "90B0BE"));
    v.push(("5505", "80A4B0"));
    v.push(("5515", "6894A0"));
    v.push(("5525", "54808E"));
    v.push(("5535", "A0C0C8"));
    v.push(("5545", "8CB4BC"));
    v.push(("5555", "70A0A8"));
    v.push(("5565", "5A8C94"));
    v.push(("5575", "A8C8C4"));
    v.push(("5585", "98BCBA"));
    v.push(("5595", "7CACA8"));
    v.push(("5605", "6A9C98"));
    v.push(("5615", "9AB898"));
    v.push(("5625", "86A884"));
    v.push(("5635", "6C9470"));
    v.push(("5645", "587C5C"));
    v.push(("5655", "A4C4A0"));
    v.push(("5665", "8CB488"));
    v.push(("5675", "70A070"));
    v.push(("5685", "5A8860"));
    v.push(("5695", "C0D4B4"));
    v.push(("5705", "B0C8A4"));
    v.push(("5715", "98B888"));
    v.push(("5725", "84A870"));
    v.push(("5735", "AAC498"));
    v.push(("5745", "98B484"));
    v.push(("5755", "84A46E"));
    v.push(("5765", "74945C"));
    v.push(("5775", "C4D4A0"));
    v.push(("5785", "B4C890"));
    v.push(("5795", "A0B878"));
    v.push(("5805", "8CA864"));
    v.push(("7541", "D4D8DC"));
    v.push(("7542", "C0D0D4"));
    v.push(("7543", "A8B4B8"));
    v.push(("7544", "8C9CA0"));
    v.push(("7545", "5C6C72"));
    v.push(("7546", "2C3C44"));
    v.push(("7547", "1A282E"));
    assert(entry_views(v@) =~= entry_views(old(v)@) + catalogue_part_9());
}

/// The catalogue, in table order: (Pantone number, RRGGBB).
pub open spec fn catalogue() -> Seq<(Seq<char>, Seq<char>)> {
    catalogue_part_0() + catalogue_part_1() + catalogue_part_2() + catalogue_part_3() + catalogue_part_4() + catalogue_part_5() + catalogue_part_6() + catalogue_part_7() + catalogue_part_8() + catalogue_part_9()
}

/// The catalogue entries, in table order.
pub fn catalogue_entries() -> (r: Vec<(&'static str, &'static str)>)
    ensures
        entry_views(r@) == catalogue(),
{
    let mut v: Vec<(&'static str, &'static str)> = Vec::new();
    assert(entry_views(v@) =~= Seq::<(Seq<char>, Seq<char>)>::empty());

    push_part_0(&mut v);
    push_part_1(&mut v);
    push_part_2(&mut v);
    push_part_3(&mut v);
    push_part_4(&mut v);
    push_part_5(&mut v);
    push_part_6(&mut v);
    push_part_7(&mut v);
    push_part_8(&mut v);
    push_part_9(&mut v);
    assert(entry_views(v@) =~= catalogue());
    v
}


// ── Name normalisation ───────────────────────────────────────────────────────

/// Unicode `White_Space`, the set `char::is_whitespace` tests.
pub open spec fn is_space(c: char) -> bool {
    ||| '\u{9}' <= c <= '\u{d}'
    ||| c == ' '
    ||| c == '\u{85}'
    ||| c == '\u{a0}'
    ||| c == '\u{1680}'
    ||| '\u{2000}' <= c <= '\u{200a}'
    ||| c == '\u{2028}'
    ||| c == '\u{2029}'
    ||| c == '\u{202f}'
    ||| c == '\u{205f}'
    ||| c == '\u{3000}'
}

pub open spec fn trim_start(s: Seq<char>) -> Seq<char>
    decreases s.len(),
{
    if s.len() > 0 && is_space(s[0]) {
        trim_start(s.drop_first())
    } else {
        s
    }
}

pub open spec fn trim_end(s: Seq<char>) -> Seq<char>
    decreases s.len(),
{
    if s.len() > 0 && is_space(s.last()) {
        trim_end(s.drop_last())
    } else {
        s
    }
}

/// `s` without leading and trailing white space.
pub open spec fn trim(s: Seq<char>) -> Seq<char> {
    trim_end(trim_start(s))
}

/// `s` without the prefix `p`, or `s` when it does not start with `p`.
pub open spec fn strip_prefix(s: Seq<char>, p: Seq<char>) -> Seq<char> {
    if p.len() <= s.len() && s.take(p.len() as int) == p {
        s.skip(p.len() as int)
    } else {
        s
    }
}

/// `s` without the suffix `p`, or `s` when it does not end with `p`.
pub open spec fn strip_suffix(s: Seq<char>, p: Seq<char>) -> Seq<char> {
    if p.len() <= s.len() && s.skip(s.len() - p.len()) == p {
        s.take(s.len() - p.len())
    } else {
        s
    }
}

/// The Pantone number in an ink name: trimmed, then without a leading
/// "Pantone® ", "Pantone ", "PMS " or "pms " (each tried in turn), then
/// without a trailing " CP", " UP", " C" or " U" (each tried in turn), trimmed.
pub open spec fn pantone_key(name: Seq<char>) -> Seq<char> {
    let s = trim(name);
    let s = strip_prefix(s, "Pantone\u{ae} "@);
    let s = strip_prefix(s, "Pantone "@);
    let s = strip_prefix(s, "PMS "@);
    let s = strip_prefix(s, "pms "@);
    let s = strip_suffix(s, " CP"@);
    let s = strip_suffix(s, " UP"@);
    let s = strip_suffix(s, " C"@);
    let s = strip_suffix(s, " U"@);
    trim(s)
}

/// The colour of the first catalogue entry numbered `key`.
pub open spec fn first_hex(cat: Seq<(Seq<char>, Seq<char>)>, key: Seq<char>) -> Option<Seq<char>>
    decreases cat.len(),
{
    if cat.len() == 0 {
        None
    } else if cat[0].0 == key {
        Some(cat[0].1)
    } else {
        first_hex(cat.drop_first(), key)
    }
}

fn is_space_char(c: char) -> (b: bool)
    ensures
        b == is_space(c),
{
    ('\u{9}' <= c && c <= '\u{d}') || c == ' ' || c == '\u{85}' || c == '\u{a0}'
        || c == '\u{1680}' || ('\u{2000}' <= c && c <= '\u{200a}') || c == '\u{2028}'
        || c == '\u{2029}' || c == '\u{202f}' || c == '\u{205f}' || c == '\u{3000}'
}

fn copy_range(s: &Vec<char>, from: usize, to: usize) -> (r: Vec<char>)
    requires
        from <= to <= s.len(),
    ensures
        r@ == s@.subrange(from as int, to as int),
{
    let mut out: Vec<char> = Vec::new();
    let mut i = from;
    while i < to
        invariant
            from <= i <= to <= s.len(),
            out@ == s@.subrange(from as int, i as int),
        decreases to - i,
    {
        out.push(s[i]);
        i = i + 1;
        assert(out@ =~= s@.subrange(from as int, i as int));
    }
    out
}

proof fn lemma_trim_start_skip(s: Seq<char>, i: int)
    requires
        0 <= i <= s.len(),
        forall|k: int| 0 <= k < i ==> is_space(#[trigger] s[k]),
    ensures
        trim_start(s) == trim_start(s.skip(i)),
    decreases i,
{
    if i > 0 {
        assert(s.drop_first().skip(i - 1) =~= s.skip(i));
        assert forall|k: int| 0 <= k < i - 1 implies is_space(#[trigger] s.drop_first()[k]) by {
            assert(s.drop_first()[k] == s[k + 1]);
        }
        lemma_trim_start_skip(s.drop_first(), i - 1);
    } else {
        assert(s.skip(0) =~= s);
    }
}

proof fn lemma_trim_end_take(s: Seq<char>, j: int)
    requires
        0 <= j <= s.len(),
        forall|k: int| j <= k < s.len() ==> is_space(#[trigger] s[k]),
    ensures
        trim_end(s) == trim_end(s.take(j)),
    decreases s.len() - j,
{
    if j < s.len() {
        assert(s.drop_last().take(j) =~= s.take(j));
        assert forall|k: int| j <= k < s.len() - 1 implies is_space(#[trigger] s.drop_last()[k]) by {
            assert(s.drop_last()[k] == s[k]);
        }
        lemma_trim_end_take(s.drop_last(), j);
    } else {
        assert(s.take(j) =~= s);
    }
}

fn trim_chars(s: &Vec<char>) -> (r: Vec<char>)
    ensures
        r@ == trim(s@),
{
    let mut i: usize = 0;
    while i < s.len() && is_space_char(s[i])
        invariant
            i <= s.len(),
            forall|k: int| 0 <= k < i ==> is_space(#[trigger] s@[k]),
        decreases s.len() - i,
    {
        i = i + 1;
    }
    proof { lemma_trim_start_skip(s@, i as int); }
    let mut j: usize = s.len();
    while j > i && is_space_char(s[j - 1])
        invariant
            i <= j <= s.len(),
            forall|k: int| j <= k < s.len() ==> is_space(#[trigger] s@[k]),
        decreases j,
    {
        j = j - 1;
    }
    let ghost t = s@.skip(i as int);
    proof {
        assert forall|k: int| j - i <= k < t.len() implies is_space(#[trigger] t[k]) by {
            assert(t[k] == s@[k + i]);
        }
        lemma_trim_end_take(t, j - i);
        assert(t.take(j - i) =~= s@.subrange(i as int, j as int));
    }
    copy_range(s, i, j)
}

fn starts_with(s: &Vec<char>, p: &Vec<char>) -> (b: bool)
    ensures
        b == (p@.len() <= s@.len() && s@.take(p@.len() as int) == p@),
{
    if p.len() > s.len() {
        return false;
    }
    let mut i: usize = 0;
    while i < p.len()
        invariant
            p.len() <= s.len(),
            i <= p.len(),
            forall|k: int| 0 <= k < i ==> s@[k] == p@[k],
        decreases p.len() - i,
    {
        if s[i] != p[i] {
            assert(s@.take(p@.len() as int)[i as int] != p@[i as int]);
            return false;
        }
        i = i + 1;
    }
    assert(s@.take(p@.len() as int) =~= p@);
    true
}

fn ends_with(s: &Vec<char>, p: &Vec<char>) -> (b: bool)
    ensures
        b == (p@.len() <= s@.len() && s@.skip(s@.len() - p@.len()) == p@),
{
    if p.len() > s.len() {
        return false;
    }
    let off = s.len() - p.len();
    let mut i: usize = 0;
    while i < p.len()
        invariant
            p.len() <= s.len(),
            off == s.len() - p.len(),
            i <= p.len(),
            forall|k: int| 0 <= k < i ==> s@[off + k] == p@[k],
        decreases p.len() - i,
    {
        if s[off + i] != p[i] {
            assert(s@.skip(off as int)[i as int] != p@[i as int]);
            return false;
        }
        i = i + 1;
    }
    assert(s@.skip(off as int) =~= p@);
    true
}

fn strip_prefix_chars(s: Vec<char>, p: &str) -> (r: Vec<char>)
    ensures
        r@ == strip_prefix(s@, p@),
{
    let pc = chars_of(p);
    if starts_with(&s, &pc) {
        copy_range(&s, pc.len(), s.len())
    } else {
        s
    }
}

fn strip_suffix_chars(s: Vec<char>, p: &str) -> (r: Vec<char>)
    ensures
        r@ == strip_suffix(s@, p@),
{
    let pc = chars_of(p);
    if ends_with(&s, &pc) {
        copy_range(&s, 0, s.len() - pc.len())
    } else {
        s
    }
}

fn same_chars(a: &Vec<char>, b: &Vec<char>) -> (r: bool)
    ensures
        r == (a@ == b@),
{
    if a.len() != b.len() {
        return false;
    }
    let mut i: usize = 0;
    while i < a.len()
        invariant
            a.len() == b.len(),
            i <= a.len(),
            forall|k: int| 0 <= k < i ==> a@[k] == b@[k],
        decreases a.len() - i,
    {
        if a[i] != b[i] {
            return false;
        }
        i = i + 1;
    }
    assert(a@ =~= b@);
    true
}

/// Parse a PMS/Pantone number from an ink name and look it up in the catalogue.
pub fn pantone_hex(name: &str) -> (r: Option<&'static str>)
    ensures
        match r {
            Some(h) => first_hex(catalogue(), pantone_key(name@)) == Some(h@),
            None => first_hex(catalogue(), pantone_key(name@)) is None,
        },
{
    let s = trim_chars(&chars_of(name));
    let s = strip_prefix_chars(s, "Pantone\u{ae} ");
    let s = strip_prefix_chars(s, "Pantone ");
    let s = strip_prefix_chars(s, "PMS ");
    let s = strip_prefix_chars(s, "pms ");
    let s = strip_suffix_chars(s, " CP");
    let s = strip_suffix_chars(s, " UP");
    let s = strip_suffix_chars(s, " C");
    let s = strip_suffix_chars(s, " U");
    let key = trim_chars(&s);
    let table = catalogue_entries();
    let ghost cat = catalogue();
    assert(cat.skip(0) =~= cat);
    let mut i: usize = 0;
    while i < table.len()
        invariant
            entry_views(table@) == cat,
            cat == catalogue(),
            i <= table.len(),
            key@ == pantone_key(name@),
            first_hex(cat, key@) == first_hex(cat.skip(i as int), key@),
        decreases table.len() - i,
    {
        assert(cat.skip(i as int).drop_first() =~= cat.skip(i + 1));
        let entry = table[i];
        if same_chars(&chars_of(entry.0), &key) {
            return Some(entry.1);
        }
        i = i + 1;
    }
    None
}


// ── Text colour on a swatch ──────────────────────────────────────────────────

/// The value of the ASCII hexadecimal digit `b`.
pub open spec fn hex_value(b: u8) -> Option<nat> {
    if 48 <= b <= 57 {
        Some((b - 48) as nat)
    } else if 65 <= b <= 70 {
        Some((b - 55) as nat)
    } else if 97 <= b <= 102 {
        Some((b - 87) as nat)
    } else {
        None
    }
}

/// The byte that two bytes of text spell in base 16: two digits, or a plus
/// sign and one digit; 0 when they spell none.
pub open spec fn pair_value(b0: u8, b1: u8) -> nat {
    if b0 == 43 {
        match hex_value(b1) {
            Some(d) => d,
            None => 0,
        }
    } else {
        match (hex_value(b0), hex_value(b1)) {
            (Some(x), Some(y)) => 16 * x + y,
            _ => 0,
        }
    }
}

/// The colours whose weighted brightness is exactly 140 but which, weighed
/// in single precision, come out above 140.
pub open spec fn rounds_above(r: nat, g: nat, b: nat) -> bool {
    ||| (r == 248 && g == 98 && b == 73)
    ||| (r == 207 && g == 115 && b == 93)
    ||| (r == 87 && g == 187 && b == 37)
    ||| (r == 61 && g == 195 && b == 64)
    ||| (r == 42 && g == 214 && b == 16)
}

/// Light enough for dark text: weighted brightness (.299 R + .587 G + .114 B)
/// above 140, as single-precision arithmetic decides it, from the colour
/// bytes spelled by the first six bytes of the text.
pub open spec fn light(bytes: Seq<u8>) -> bool {
    let r = pair_value(bytes[0], bytes[1]);
    let g = pair_value(bytes[2], bytes[3]);
    let b = pair_value(bytes[4], bytes[5]);
    299 * r + 587 * g + 114 * b > 140000 || rounds_above(r, g, b)
}

/// The text can be cut into its first three two-byte parts: it holds six
/// bytes or more, and bytes 2, 4 and 6 start characters.
pub open spec fn colour_parts(hex: Seq<char>) -> bool {
    let b = vstd::utf8::encode_utf8(hex);
    b.len() >= 6 && vstd::utf8::is_char_boundary(b, 2) && vstd::utf8::is_char_boundary(b, 4)
        && vstd::utf8::is_char_boundary(b, 6)
}

fn hex_value_of(b: u8) -> (r: Option<u32>)
    ensures
        match r {
            Some(v) => hex_value(b) == Some(v as nat) && v < 16,
            None => hex_value(b) is None,
        },
{
    if 48 <= b && b <= 57 {
        Some((b - 48) as u32)
    } else if 65 <= b && b <= 70 {
        Some((b - 55) as u32)
    } else if 97 <= b && b <= 102 {
        Some((b - 87) as u32)
    } else {
        None
    }
}

fn pair_value_of(b0: u8, b1: u8) -> (r: u32)
    ensures
        r == pair_value(b0, b1),
        r < 256,
{
    if b0 == 43 {
        match hex_value_of(b1) {
            Some(d) => d,
            None => 0,
        }
    } else {
        match (hex_value_of(b0), hex_value_of(b1)) {
            (Some(x), Some(y)) => 16 * x + y,
            _ => 0,
        }
    }
}

/// Returns true if the hex colour is light enough to need dark text.
pub fn is_light(hex: &str) -> (b: bool)
    requires
        colour_parts(hex@),
    ensures
        b == light(vstd::utf8::encode_utf8(hex@)),
{
    let bytes = hex.as_bytes();
    let r = pair_value_of(bytes[0], bytes[1]);
    let g = pair_value_of(bytes[2], bytes[3]);
    let b = pair_value_of(bytes[4], bytes[5]);
    let exact = 299 * r + 587 * g + 114 * b > 140000;
    let rounded = (r == 248 && g == 98 && b == 73) || (r == 207 && g == 115 && b == 93) || (r == 87 && g == 187
        && b == 37) || (r == 61 && g == 195 && b == 64) || (r == 42 && g == 214 && b == 16);
    exact || rounded
}

// ── The catalogue's colour codes ─────────────────────────────────────────────

/// Six upper-case hexadecimal digits.
pub open spec fn colour_code(hex: Seq<char>) -> bool {
    hex.len() == 6 && forall|j: int| 0 <= j < 6 ==> ('0' <= #[trigger] hex[j] <= '9' || 'A' <= hex[j] <= 'F')
}

/// A colour code can be cut into its three colour bytes.
pub proof fn lemma_colour_code_parts(hex: Seq<char>)
    requires
        colour_code(hex),
    ensures
        colour_parts(hex),
{
    assert(vstd::utf8::is_ascii_chars(hex));
    vstd::utf8::is_ascii_chars_encode_utf8(hex);
    let b = vstd::utf8::encode_utf8(hex);
    vstd::utf8::encode_utf8_valid_utf8(hex);
    assert(b[2] == hex[2] as u8);
    assert(b[4] == hex[4] as u8);
    vstd::utf8::is_char_boundary_iff_not_is_continuation_byte(b, 2);
    vstd::utf8::is_char_boundary_iff_not_is_continuation_byte(b, 4);
    vstd::utf8::is_char_boundary_start_end_of_seq(b);
}

proof fn lemma_part_0_codes()
    ensures
        forall|i: int| 0 <= i < catalogue_part_0().len() ==> colour_code(#[trigger] catalogue_part_0()[i].1),
{
    reveal_strlit("F4ED7C");
    reveal_strlit("F4ED47");
    reveal_strlit("F9E526");
    reveal_strlit("C6AD0F");
    reveal_strlit("A99200");
    reveal_strlit("897A0B");
    reveal_strlit("F6E619");
    reveal_strlit("F5E012");
    reveal_strlit("F4D900");
    reveal_strlit("F2CC00");
    reveal_strlit("E0B800");
    reveal_strlit("C8A400");
    reveal_strlit("B59500");
    reveal_strlit("F5E642");
    reveal_strlit("F5E13C");
    reveal_strlit("F5DC3C");
    reveal_strlit("FFCD00");
    reveal_strlit("D89A00");
    reveal_strlit("B88200");
    reveal_strlit("8C6400");
    reveal_strlit("FAE171");
    reveal_strlit("FAD95A");
    reveal_strlit("FAD048");
    reveal_strlit("FFC72C");
    reveal_strlit("EAA900");
    reveal_strlit("C48C00");
    reveal_strlit("A07400");
    reveal_strlit("F5E27A");
    reveal_strlit("F5D85C");
    reveal_strlit("F5CB3C");
    reveal_strlit("F5A800");
    reveal_strlit("D48900");
    reveal_strlit("A87000");
    reveal_strlit("785200");
    reveal_strlit("FADE8C");
    reveal_strlit("FAD274");
    reveal_strlit("FAC257");
    reveal_strlit("F5A623");
    reveal_strlit("D48800");
    reveal_strlit("A07200");
    reveal_strlit("7A5500");
    reveal_strlit("F5DA8C");
    reveal_strlit("F5CC70");
    reveal_strlit("F5BC50");
    reveal_strlit("F08300");
    reveal_strlit("CF6F00");
    reveal_strlit("A15B00");
    reveal_strlit("704800");
    reveal_strlit("FAD9A8");
    reveal_strlit("FAC880");
}

proof fn lemma_part_1_codes()
    ensures
        forall|i: int| 0 <= i < catalogue_part_1().len() ==> colour_code(#[trigger] catalogue_part_1()[i].1),
{
    reveal_strlit("FAB25A");
    reveal_strlit("FA7A14");
    reveal_strlit("D96D00");
    reveal_strlit("B35A00");
    reveal_strlit("8C4700");
    reveal_strlit("FADE9E");
    reveal_strlit("FAC87E");
    reveal_strlit("FAB55C");
    reveal_strlit("FA6816");
    reveal_strlit("C64B00");
    reveal_strlit("7D3D00");
    reveal_strlit("5A2D0C");
    reveal_strlit("FABE96");
    reveal_strlit("FA9E6C");
    reveal_strlit("FA8040");
    reveal_strlit("FF6900");
    reveal_strlit("E05C00");
    reveal_strlit("B04500");
    reveal_strlit("7A2E0A");
    reveal_strlit("F4B8A0");
    reveal_strlit("F49678");
    reveal_strlit("F46E45");
    reveal_strlit("F25C28");
    reveal_strlit("CF4520");
    reveal_strlit("99391A");
    reveal_strlit("7A2C15");
    reveal_strlit("F2B8AE");
    reveal_strlit("F28C82");
    reveal_strlit("F26859");
    reveal_strlit("EF3A20");
    reveal_strlit("CF3520");
    reveal_strlit("A02018");
    reveal_strlit("F5B8B8");
    reveal_strlit("F59090");
    reveal_strlit("F56878");
    reveal_strlit("EF3340");
    reveal_strlit("CF2A2A");
    reveal_strlit("A82020");
    reveal_strlit("7A1818");
    reveal_strlit("F5A8B8");
    reveal_strlit("F580A8");
    reveal_strlit("F560A0");
    reveal_strlit("F02057");
    reveal_strlit("C51547");
    reveal_strlit("A01040");
    reveal_strlit("7A0C30");
    reveal_strlit("F5B8C8");
    reveal_strlit("F590B0");
    reveal_strlit("F56895");
    reveal_strlit("EF2060");
}

proof fn lemma_part_2_codes()
    ensures
        forall|i: int| 0 <= i < catalogue_part_2().len() ==> colour_code(#[trigger] catalogue_part_2()[i].1),
{
    reveal_strlit("CC2244");
    reveal_strlit("A01830");
    reveal_strlit("7A1422");
    reveal_strlit("F5A8C8");
    reveal_strlit("F580B0");
    reveal_strlit("F05895");
    reveal_strlit("EE1163");
    reveal_strlit("C4004B");
    reveal_strlit("9A003A");
    reveal_strlit("7A002B");
    reveal_strlit("F5A0CC");
    reveal_strlit("F078B4");
    reveal_strlit("EA5094");
    reveal_strlit("E8006B");
    reveal_strlit("C4005A");
    reveal_strlit("9A0048");
    reveal_strlit("7A0038");
    reveal_strlit("F0A8D8");
    reveal_strlit("E87CC0");
    reveal_strlit("E050A0");
    reveal_strlit("CC3C8C");
    reveal_strlit("A22874");
    reveal_strlit("7A1858");
    reveal_strlit("ECA0D0");
    reveal_strlit("E878BC");
    reveal_strlit("E050A8");
    reveal_strlit("DE008C");
    reveal_strlit("BA0076");
    reveal_strlit("940060");
    reveal_strlit("7A004E");
    reveal_strlit("F0A8E0");
    reveal_strlit("EC80CC");
    reveal_strlit("E850B8");
    reveal_strlit("D200A0");
    reveal_strlit("B00086");
    reveal_strlit("90006E");
    reveal_strlit("F4B4E8");
    reveal_strlit("F090D8");
    reveal_strlit("EC68C8");
    reveal_strlit("E848B8");
    reveal_strlit("D428A0");
    reveal_strlit("B01C8C");
    reveal_strlit("8C1474");
    reveal_strlit("EFB0E0");
    reveal_strlit("EC90D0");
    reveal_strlit("E868C0");
    reveal_strlit("D500A0");
    reveal_strlit("B40088");
    reveal_strlit("950072");
    reveal_strlit("780060");
}

proof fn lemma_part_3_codes()
    ensures
        forall|i: int| 0 <= i < catalogue_part_3().len() ==> colour_code(#[trigger] catalogue_part_3()[i].1),
{
    reveal_strlit("F0B8E8");
    reveal_strlit("EE98DC");
    reveal_strlit("EC74CC");
    reveal_strlit("CC44B0");
    reveal_strlit("A42898");
    reveal_strlit("841480");
    reveal_strlit("DAAAE0");
    reveal_strlit("D090D4");
    reveal_strlit("B86AB8");
    reveal_strlit("8C3A96");
    reveal_strlit("743084");
    reveal_strlit("622873");
    reveal_strlit("4E2060");
    reveal_strlit("D4B8E0");
    reveal_strlit("C4A0D4");
    reveal_strlit("AC7EC0");
    reveal_strlit("9054A8");
    reveal_strlit("7B3798");
    reveal_strlit("642880");
    reveal_strlit("4E2069");
    reveal_strlit("C0B0D8");
    reveal_strlit("B098CC");
    reveal_strlit("9C80BC");
    reveal_strlit("7050A0");
    reveal_strlit("582878");
    reveal_strlit("401860");
    reveal_strlit("9898CC");
    reveal_strlit("A0C0E0");
    reveal_strlit("90B4DC");
    reveal_strlit("6094CC");
    reveal_strlit("1B3A8A");
    reveal_strlit("1B327A");
    reveal_strlit("152860");
    reveal_strlit("8CB8E0");
    reveal_strlit("70A8D8");
    reveal_strlit("4898CE");
    reveal_strlit("0033A0");
    reveal_strlit("003087");
    reveal_strlit("002D72");
    reveal_strlit("001A4B");
    reveal_strlit("B8D8EC");
    reveal_strlit("9CCCEC");
    reveal_strlit("80BCEC");
    reveal_strlit("0065BD");
    reveal_strlit("00529A");
    reveal_strlit("003878");
    reveal_strlit("002055");
    reveal_strlit("A0D0EC");
    reveal_strlit("80C8EC");
    reveal_strlit("60B8E8");
}

proof fn lemma_part_4_codes()
    ensures
        forall|i: int| 0 <= i < catalogue_part_4().len() ==> colour_code(#[trigger] catalogue_part_4()[i].1),
{
    reveal_strlit("0057A8");
    reveal_strlit("004B87");
    reveal_strlit("003865");
    reveal_strlit("002848");
    reveal_strlit("A0D8E8");
    reveal_strlit("78CCEC");
    reveal_strlit("50C0ED");
    reveal_strlit("0081A8");
    reveal_strlit("006C90");
    reveal_strlit("004860");
    reveal_strlit("88D8EC");
    reveal_strlit("60D0EC");
    reveal_strlit("00B0D8");
    reveal_strlit("0096C8");
    reveal_strlit("0082A8");
    reveal_strlit("006889");
    reveal_strlit("004B62");
    reveal_strlit("C0E8EC");
    reveal_strlit("A0E0EC");
    reveal_strlit("70D4EC");
    reveal_strlit("009B9E");
    reveal_strlit("008690");
    reveal_strlit("006D76");
    reveal_strlit("005A62");
    reveal_strlit("A8E0DC");
    reveal_strlit("80D8D4");
    reveal_strlit("50CCCA");
    reveal_strlit("009490");
    reveal_strlit("007B78");
    reveal_strlit("006462");
    reveal_strlit("C0E8E0");
    reveal_strlit("A0E0D8");
    reveal_strlit("80D8CC");
    reveal_strlit("00B4A8");
    reveal_strlit("008A80");
    reveal_strlit("007068");
    reveal_strlit("006058");
    reveal_strlit("B8E8D8");
    reveal_strlit("98E0CC");
    reveal_strlit("70D4BC");
    reveal_strlit("00A880");
    reveal_strlit("008C68");
    reveal_strlit("007258");
    reveal_strlit("005E48");
    reveal_strlit("B4E0C0");
    reveal_strlit("98D8AC");
    reveal_strlit("78CC98");
    reveal_strlit("00843D");
    reveal_strlit("006747");
    reveal_strlit("005030");
}

proof fn lemma_part_5_codes()
    ensures
        forall|i: int| 0 <= i < catalogue_part_5().len() ==> colour_code(#[trigger] catalogue_part_5()[i].1),
{
    reveal_strlit("003820");
    reveal_strlit("C0E8C4");
    reveal_strlit("A8E0B0");
    reveal_strlit("88D89A");
    reveal_strlit("00A85A");
    reveal_strlit("009A44");
    reveal_strlit("007A3D");
    reveal_strlit("005830");
    reveal_strlit("C8E8A8");
    reveal_strlit("B8E494");
    reveal_strlit("A0DC78");
    reveal_strlit("78CA40");
    reveal_strlit("64A830");
    reveal_strlit("508A28");
    reveal_strlit("406E20");
    reveal_strlit("CEE890");
    reveal_strlit("C0E070");
    reveal_strlit("A8D450");
    reveal_strlit("78BE20");
    reveal_strlit("68A010");
    reveal_strlit("528400");
    reveal_strlit("406800");
    reveal_strlit("D8EC9C");
    reveal_strlit("CCE888");
    reveal_strlit("BAE06E");
    reveal_strlit("97D700");
    reveal_strlit("84C200");
    reveal_strlit("6CA400");
    reveal_strlit("548600");
    reveal_strlit("E0EC88");
    reveal_strlit("D4E048");
    reveal_strlit("C8DC20");
    reveal_strlit("B4CC00");
    reveal_strlit("A0B800");
    reveal_strlit("8A9E00");
    reveal_strlit("748400");
    reveal_strlit("EAF080");
    reveal_strlit("E0EC68");
    reveal_strlit("D4E440");
    reveal_strlit("CCD800");
    reveal_strlit("BACA00");
    reveal_strlit("A6B800");
    reveal_strlit("909E00");
    reveal_strlit("EFF286");
    reveal_strlit("EAF068");
    reveal_strlit("E4EC48");
    reveal_strlit("DCE800");
    reveal_strlit("C8D400");
    reveal_strlit("B0B800");
    reveal_strlit("909800");
}

proof fn lemma_part_6_codes()
    ensures
        forall|i: int| 0 <= i < catalogue_part_6().len() ==> colour_code(#[trigger] catalogue_part_6()[i].1),
{
    reveal_strlit("F0DBC0");
    reveal_strlit("E0C890");
    reveal_strlit("C8A878");
    reveal_strlit("A88054");
    reveal_strlit("8C6640");
    reveal_strlit("F0DEC8");
    reveal_strlit("E8CCA8");
    reveal_strlit("D4B48C");
    reveal_strlit("A0622C");
    reveal_strlit("8C5020");
    reveal_strlit("784018");
    reveal_strlit("F8D8C0");
    reveal_strlit("F4C8A8");
    reveal_strlit("ECA888");
    reveal_strlit("DC8050");
    reveal_strlit("7A4830");
    reveal_strlit("6C3820");
    reveal_strlit("582C18");
    reveal_strlit("EDD8C0");
    reveal_strlit("E8C8A0");
    reveal_strlit("D8A870");
    reveal_strlit("9A6040");
    reveal_strlit("6A3820");
    reveal_strlit("DA291C");
    reveal_strlit("EBA890");
    reveal_strlit("E89070");
    reveal_strlit("DC6840");
    reveal_strlit("C84818");
    reveal_strlit("C4BCAC");
    reveal_strlit("ACA49C");
    reveal_strlit("8C847A");
    reveal_strlit("1A1614");
    reveal_strlit("D4CCC4");
    reveal_strlit("BCBCB4");
    reveal_strlit("A4A49C");
    reveal_strlit("8C8C84");
    reveal_strlit("70706C");
    reveal_strlit("4A4A46");
    reveal_strlit("1A1A18");
    reveal_strlit("D8D4D0");
    reveal_strlit("C8C8C4");
    reveal_strlit("B4B4B0");
    reveal_strlit("909088");
    reveal_strlit("686868");
    reveal_strlit("404040");
    reveal_strlit("282828");
    reveal_strlit("E0D8D4");
    reveal_strlit("D4CCC8");
    reveal_strlit("C4BCBA");
}

proof fn lemma_part_7_codes()
    ensures
        forall|i: int| 0 <= i < catalogue_part_7().len() ==> colour_code(#[trigger] catalogue_part_7()[i].1),
{
    reveal_strlit("9C9090");
    reveal_strlit("706860");
    reveal_strlit("504840");
    reveal_strlit("382E2A");
    reveal_strlit("E0DDD8");
    reveal_strlit("D4D2CC");
    reveal_strlit("C4C2BC");
    reveal_strlit("B4B2AC");
    reveal_strlit("A8A6A0");
    reveal_strlit("989690");
    reveal_strlit("888884");
    reveal_strlit("747472");
    reveal_strlit("626060");
    reveal_strlit("4A4848");
    reveal_strlit("383636");
    reveal_strlit("D8D0C8");
    reveal_strlit("CCC4BC");
    reveal_strlit("BCB4AC");
    reveal_strlit("ACA49C");
    reveal_strlit("9C9488");
    reveal_strlit("8C8478");
    reveal_strlit("7C7468");
    reveal_strlit("6C6458");
    reveal_strlit("5C5448");
    reveal_strlit("4C4440");
    reveal_strlit("3C3430");
    reveal_strlit("9C8732");
    reveal_strlit("8C7828");
}

proof fn lemma_part_8_codes()
    ensures
        forall|i: int| 0 <= i < catalogue_part_8().len() ==> colour_code(#[trigger] catalogue_part_8()[i].1),
{
    reveal_strlit("806E20");
    reveal_strlit("9A8430");
    reveal_strlit("8A7426");
    reveal_strlit("7A641C");
    reveal_strlit("8C8C8C");
    reveal_strlit("7A7A7A");
    reveal_strlit("6A6A6A");
    reveal_strlit("FE5000");
    reveal_strlit("EF3340");
    reveal_strlit("003DA5");
    reveal_strlit("FEDD00");
    reveal_strlit("F3432C");
    reveal_strlit("E0457B");
    reveal_strlit("CA0044");
    reveal_strlit("001489");
    reveal_strlit("440099");
    reveal_strlit("0085CA");
    reveal_strlit("00A651");
    reveal_strlit("231F20");
    reveal_strlit("008EAA");
    reveal_strlit("6CC24A");
    reveal_strlit("FFEF00");
    reveal_strlit("FF8200");
    reveal_strlit("FF5E57");
    reveal_strlit("FF59F8");
    reveal_strlit("F52886");
    reveal_strlit("4E7B8C");
    reveal_strlit("3E7496");
    reveal_strlit("7AACB8");
    reveal_strlit("6E9EA8");
    reveal_strlit("C8A0A8");
    reveal_strlit("BF8C92");
    reveal_strlit("B07880");
    reveal_strlit("9C6268");
    reveal_strlit("C8A080");
    reveal_strlit("BF9068");
    reveal_strlit("B07850");
    reveal_strlit("9C6440");
    reveal_strlit("D8B4C0");
    reveal_strlit("D0A0B0");
    reveal_strlit("C48CA0");
    reveal_strlit("B87890");
    reveal_strlit("5A6E9A");
    reveal_strlit("4A5E88");
    reveal_strlit("3A4E76");
    reveal_strlit("2C3E64");
    reveal_strlit("A0B8C8");
    reveal_strlit("8AAAB8");
    reveal_strlit("7498A8");
}

proof fn lemma_part_9_codes()
    ensures
        forall|i: int| 0 <= i < catalogue_part_9().len() ==> colour_code(#[trigger] catalogue_part_9()[i].1),
{
    reveal_strlit("608898");
    reveal_strlit("6A8EA0");
    reveal_strlit("5A7E8E");
    reveal_strlit("8AAAB8");
    reveal_strlit("7A9AA8");
    reveal_strlit("A8BEC8");
    reveal_strlit("98B0BC");
    reveal_strlit("6A909E");
    reveal_strlit("587E8C");
    reveal_strlit("90B0BE");
    reveal_strlit("80A4B0");
    reveal_strlit("6894A0");
    reveal_strlit("54808E");
    reveal_strlit("A0C0C8");
    reveal_strlit("8CB4BC");
    reveal_strlit("70A0A8");
    reveal_strlit("5A8C94");
    reveal_strlit("A8C8C4");
    reveal_strlit("98BCBA");
    reveal_strlit("7CACA8");
    reveal_strlit("6A9C98");
    reveal_strlit("9AB898");
    reveal_strlit("86A884");
    reveal_strlit("6C9470");
    reveal_strlit("587C5C");
    reveal_strlit("A4C4A0");
    reveal_strlit("8CB488");
    reveal_strlit("70A070");
    reveal_strlit("5A8860");
    reveal_strlit("C0D4B4");
    reveal_strlit("B0C8A4");
    reveal_strlit("98B888");
    reveal_strlit("84A870");
    reveal_strlit("AAC498");
    reveal_strlit("98B484");
    reveal_strlit("84A46E");
    reveal_strlit("74945C");
    reveal_strlit("C4D4A0");
    reveal_strlit("B4C890");
    reveal_strlit("A0B878");
    reveal_strlit("8CA864");
    reveal_strlit("D4D8DC");
    reveal_strlit("C0D0D4");
    reveal_strlit("A8B4B8");
    reveal_strlit("8C9CA0");
    reveal_strlit("5C6C72");
    reveal_strlit("2C3C44");
    reveal_strlit("1A282E");
}

/// Every colour in the catalogue is six upper-case hexadecimal digits.
pub proof fn lemma_catalogue_codes()
    ensures
        forall|i: int| 0 <= i < catalogue().len() ==> colour_code(#[trigger] catalogue()[i].1),
{
    lemma_part_0_codes();
    lemma_part_1_codes();
    lemma_part_2_codes();
    lemma_part_3_codes();
    lemma_part_4_codes();
    lemma_part_5_codes();
    lemma_part_6_codes();
    lemma_part_7_codes();
    lemma_part_8_codes();
    lemma_part_9_codes();
    let c = catalogue();
    assert forall|i: int| 0 <= i < c.len() implies colour_code(#[trigger] c[i].1) by {
        let p0 = catalogue_part_0();
        let p1 = catalogue_part_1();
        let p2 = catalogue_part_2();
        let p3 = catalogue_part_3();
        let p4 = catalogue_part_4();
        let p5 = catalogue_part_5();
        let p6 = catalogue_part_6();
        let p7 = catalogue_part_7();
        let p8 = catalogue_part_8();
        let p9 = catalogue_part_9();
        let s1 = p0 + p1;
        let s2 = s1 + p2;
        let s3 = s2 + p3;
        let s4 = s3 + p4;
        let s5 = s4 + p5;
        let s6 = s5 + p6;
        let s7 = s6 + p7;
        let s8 = s7 + p8;
        assert(c == s8 + p9);
        if i < p0.len() {
            assert(c[i] == p0[i]);
        } else if i < s1.len() {
            assert(c[i] == p1[i - p0.len()]);
        } else if i < s2.len() {
            assert(c[i] == p2[i - s1.len()]);
        } else if i < s3.len() {
            assert(c[i] == p3[i - s2.len()]);
        } else if i < s4.len() {
            assert(c[i] == p4[i - s3.len()]);
        } else if i < s5.len() {
            assert(c[i] == p5[i - s4.len()]);
        } else if i < s6.len() {
            assert(c[i] == p6[i - s5.len()]);
        } else if i < s7.len() {
            assert(c[i] == p7[i - s6.len()]);
        } else if i < s8.len() {
            assert(c[i] == p8[i - s7.len()]);
        } else {
            assert(c[i] == p9[i - s8.len()]);
        }
    }
}

/// What a lookup finds is one of the catalogue's colours.
pub proof fn lemma_first_hex_found(cat: Seq<(Seq<char>, Seq<char>)>, key: Seq<char>)
    ensures
        first_hex(cat, key) matches Some(h) ==> exists|i: int| 0 <= i < cat.len() && #[trigger] cat[i].1 == h,
    decreases cat.len(),
{
    if cat.len() > 0 && cat[0].0 != key {
        lemma_first_hex_found(cat.drop_first(), key);
        if let Some(h) = first_hex(cat, key) {
            let i = choose|i: int| 0 <= i < cat.drop_first().len() && #[trigger] cat.drop_first()[i].1 == h;
            assert(cat[i + 1].1 == h);
        }
    } else if cat.len() > 0 {
        assert(cat[0].1 == first_hex(cat, key).unwrap());
    }
}

} // verus!

