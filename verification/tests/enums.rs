use fractals_rs::fractals::fractal_type::FractalType;
use fractals_rs::utils::color_scheme::hue_sector;
use fractals_rs::utils::color_scheme::ColorScheme;
use fractals_rs::utils::precision_mode::PrecisionMode;

#[test]
fn precision_mode_test_precision_mode_debug() {
    assert_eq!(format!("{:?}", PrecisionMode::Fast), "Fast");
    assert_eq!(format!("{:?}", PrecisionMode::High), "High");
    assert_eq!(format!("{:?}", PrecisionMode::UltraHigh), "UltraHigh");
}

#[test]
fn precision_mode_test_precision_mode_equality() {
    assert_eq!(PrecisionMode::Fast, PrecisionMode::Fast);
    assert_ne!(PrecisionMode::Fast, PrecisionMode::High);
    assert_ne!(PrecisionMode::High, PrecisionMode::Fast);
    assert_eq!(PrecisionMode::High, PrecisionMode::High);

    assert_ne!(PrecisionMode::Fast, PrecisionMode::UltraHigh);
    assert_ne!(PrecisionMode::High, PrecisionMode::UltraHigh);
    assert_eq!(PrecisionMode::UltraHigh, PrecisionMode::UltraHigh);
}

#[test]
fn test_fractal_type_name() {
    assert_eq!(FractalType::Mandelbrot.name(), "Mandelbrot Set");
    assert_eq!(FractalType::Julia.name(), "Julia Set");
    assert_eq!(FractalType::BurningShip.name(), "Burning Ship");
    assert_eq!(FractalType::Tricorn.name(), "Tricorn");
}

#[test]
fn color_scheme_test_color_scheme_names() {
    assert_eq!(ColorScheme::Classic.name(), "Classic");
    assert_eq!(ColorScheme::Hot.name(), "Hot");
    assert_eq!(ColorScheme::Cool.name(), "Cool");
    assert_eq!(ColorScheme::Grayscale.name(), "Grayscale");
    assert_eq!(ColorScheme::Psychedelic.name(), "Psychedelic");
    assert_eq!(ColorScheme::Sunset.name(), "Sunset");
    assert_eq!(ColorScheme::Electric.name(), "Electric");
    assert_eq!(ColorScheme::Forest.name(), "Forest");
    assert_eq!(ColorScheme::Galaxy.name(), "Galaxy");
}

#[test]
fn color_scheme_names_of_the_later_schemes() {
    assert_eq!(ColorScheme::UltraSmooth.name(), "Ultra Smooth");
    assert_eq!(ColorScheme::DeepOcean.name(), "Deep Ocean");
    assert_eq!(ColorScheme::VaporwaveNeon.name(), "Vaporwave Neon");
    assert_eq!(ColorScheme::ElectricStorm.name(), "Electric Storm");
}

#[test]
fn color_scheme_all_lists_thirty_schemes_in_menu_order() {
    let all = ColorScheme::all();
    assert_eq!(all.len(), 30);
    assert_eq!(all[0], ColorScheme::Classic);
    assert_eq!(all[3], ColorScheme::Grayscale);
    assert_eq!(all[4], ColorScheme::Psychedelic);
    assert_eq!(all[9], ColorScheme::UltraSmooth);
    assert_eq!(all[29], ColorScheme::ElectricStorm);
}

#[test]
fn color_scheme_all_holds_no_scheme_twice() {
    let all = ColorScheme::all();
    for i in 0..all.len() {
        for j in 0..all.len() {
            assert_eq!(all[i] == all[j], i == j);
        }
    }
}

#[test]
fn color_scheme_default_is_classic() {
    assert_eq!(ColorScheme::default(), ColorScheme::Classic);
}

#[test]
fn hue_sectors_are_sixty_degrees_wide() {
    let edges: [(u32, u8); 13] = [
        (0, 0),
        (59, 0),
        (60, 1),
        (119, 1),
        (120, 2),
        (179, 2),
        (180, 3),
        (239, 3),
        (240, 4),
        (299, 4),
        (300, 5),
        (359, 5),
        (360, 5),
    ];
    for (degrees, sector) in edges {
        assert_eq!(hue_sector(degrees), sector);
    }
    assert_eq!(hue_sector(u32::MAX), 5);
}

#[test]
fn test_precision_mode_debug() {
    assert_eq!(format!("{:?}", PrecisionMode::Fast), "Fast");
    assert_eq!(format!("{:?}", PrecisionMode::High), "High");
}

#[test]
fn test_precision_mode_equality() {
    assert_eq!(PrecisionMode::Fast, PrecisionMode::Fast);
    assert_ne!(PrecisionMode::Fast, PrecisionMode::High);
    assert_ne!(PrecisionMode::High, PrecisionMode::Fast);
    assert_eq!(PrecisionMode::High, PrecisionMode::High);
}

#[test]
fn test_color_scheme_names() {
    assert_eq!(ColorScheme::Classic.name(), "Classic");
    assert_eq!(ColorScheme::Hot.name(), "Hot");
    assert_eq!(ColorScheme::Cool.name(), "Cool");
    assert_eq!(ColorScheme::Grayscale.name(), "Grayscale");
    assert_eq!(ColorScheme::Psychedelic.name(), "Psychedelic");
    assert_eq!(ColorScheme::Sunset.name(), "Sunset");
    assert_eq!(ColorScheme::Electric.name(), "Electric");
    assert_eq!(ColorScheme::Forest.name(), "Forest");
    assert_eq!(ColorScheme::Galaxy.name(), "Galaxy");
}
