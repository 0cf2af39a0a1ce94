use spritecollab::assets::{get_url, match_url, up, AssetType};
use spritecollab::strutil::{i32_to_dec, pad4, parse_i32, parse_u64};

const THIS: &str = "https://spriteserver.example";
const ASSETS: &str = "https://raw.example/SpriteCollab/master";

#[test]
fn pad4_pads_to_width_four() {
    assert_eq!(pad4(0), "0000");
    assert_eq!(pad4(7), "0007");
    assert_eq!(pad4(42), "0042");
    assert_eq!(pad4(999), "0999");
    assert_eq!(pad4(1000), "1000");
    assert_eq!(pad4(12345), "12345");
    assert_eq!(pad4(-1), "-001");
    assert_eq!(pad4(-12345), "-12345");
    assert_eq!(pad4(i32::MIN), "-2147483648");
}

#[test]
fn decimal_rendering_is_exact() {
    assert_eq!(i32_to_dec(0), "0");
    assert_eq!(i32_to_dec(907), "907");
    assert_eq!(i32_to_dec(-35), "-35");
    assert_eq!(i32_to_dec(i32::MIN), "-2147483648");
}

#[test]
fn up_capitalizes_the_first_letter() {
    assert_eq!(up("happy"), "Happy");
    assert_eq!(up("sad"), "Sad");
    assert_eq!(up("Walk"), "Walk");
    assert_eq!(up(""), "");
    assert_eq!(up("teary-eyed"), "Teary-Eyed");
}

#[test]
fn sheet_urls_are_served_by_this_service() {
    assert_eq!(
        get_url(AssetType::PortraitSheet, THIS, ASSETS, 7, &[]),
        format!("{}/assets/0007/portrait_sheet.png", THIS)
    );
    assert_eq!(
        get_url(AssetType::PortraitRecolorSheet, THIS, ASSETS, 7, &[1]),
        format!("{}/assets/0007/0001/portrait_recolor_sheet.png", THIS)
    );
    assert_eq!(
        get_url(AssetType::SpriteZip, THIS, ASSETS, 12, &[1, 2]),
        format!("{}/assets/0012/0001/0002/sprites.zip", THIS)
    );
    assert_eq!(
        get_url(AssetType::SpriteRecolorSheet, THIS, ASSETS, 12, &[]),
        format!("{}/assets/0012/sprite_recolor_sheet.png", THIS)
    );
}

#[test]
fn raw_asset_urls_come_from_the_asset_server() {
    assert_eq!(
        get_url(AssetType::Portrait("happy"), THIS, ASSETS, 7, &[]),
        format!("{}/portrait/0007/Happy.png", ASSETS)
    );
    assert_eq!(
        get_url(AssetType::PortraitFlipped("teary-eyed"), THIS, ASSETS, 7, &[2]),
        format!("{}/portrait/0007/0002/Teary-Eyed^.png", ASSETS)
    );
    assert_eq!(
        get_url(AssetType::SpriteAnimDataXml, THIS, ASSETS, 250, &[]),
        format!("{}/sprite/0250/AnimData.xml", ASSETS)
    );
    assert_eq!(
        get_url(AssetType::SpriteAnim("walk"), THIS, ASSETS, 250, &[]),
        format!("{}/sprite/0250/Walk-Anim.png", ASSETS)
    );
    assert_eq!(
        get_url(AssetType::SpriteOffsets("walk"), THIS, ASSETS, 250, &[]),
        format!("{}/sprite/0250/Walk-Offsets.png", ASSETS)
    );
    assert_eq!(
        get_url(AssetType::SpriteShadows(&"hurt"), THIS, ASSETS, 250, &[]),
        format!("{}/sprite/0250/Hurt-Shadow.png", ASSETS)
    );
}

#[test]
fn match_url_recovers_id_form_path_and_kind() {
    let (id, form, at) = match_url("/assets/0123/0001/0002/sprites.zip").unwrap();
    assert_eq!(id, 123);
    assert_eq!(form, vec![1, 2]);
    assert!(matches!(at, AssetType::SpriteZip));

    let (id, form, at) = match_url("/assets/7/portrait_sheet.png").unwrap();
    assert_eq!(id, 7);
    assert_eq!(form, Vec::<i32>::new());
    assert!(matches!(at, AssetType::PortraitSheet));

    let (_, _, at) = match_url("/assets/1/portrait_recolor_sheet.png").unwrap();
    assert!(matches!(at, AssetType::PortraitRecolorSheet));
    let (_, _, at) = match_url("/assets/1/2/sprite_recolor_sheet.png").unwrap();
    assert!(matches!(at, AssetType::SpriteRecolorSheet));
}

#[test]
fn match_url_rejects_what_the_templates_do_not_cover() {
    assert!(match_url("/assets/12/unknown.png").is_none());
    assert!(match_url("/other/12/sprites.zip").is_none());
    assert!(match_url("assets/12/sprites.zip").is_none());
    assert!(match_url("/assets/notanumber/sprites.zip").is_none());
    assert!(match_url("/assets/12/x/sprites.zip").is_none());
    assert!(match_url("/assets/12//sprites.zip").is_none());
    assert!(match_url("/assets/99999999999999999999/sprites.zip").is_none());
    assert!(match_url("").is_none());
}

#[test]
fn generated_sheet_urls_match_back() {
    let url = get_url(AssetType::SpriteZip, "", ASSETS, 321, &[4]);
    let (id, form, at) = match_url(&url).unwrap();
    assert_eq!(id, 321);
    assert_eq!(form, vec![4]);
    assert!(matches!(at, AssetType::SpriteZip));
}

#[test]
fn integer_parsing_matches_the_standard_library() {
    for s in ["0", "7", "-35", "+12", "2147483647", "-2147483648", "2147483648", "-2147483649",
        "007", "", "-", "+", "1a", "12345678901234567890"] {
        let chars: Vec<char> = s.chars().collect();
        assert_eq!(parse_i32(&chars), s.parse::<i32>().ok(), "on {:?}", s);
    }
    for s in ["0", "1234", "+77", "18446744073709551615", "18446744073709551616", "-1", "", "x"] {
        assert_eq!(parse_u64(s), s.parse::<u64>().ok(), "on {:?}", s);
    }
}
