//! Color schemes, and the mapping from iteration counts to colors.

use vstd::prelude::*;

verus! {

/// A color with one byte for each of the red, green, blue and alpha channels.
#[derive(Clone, Copy, Debug, PartialEq, Eq, Structural)]
pub struct Rgba {
    pub r: u8,
    pub g: u8,
    pub b: u8,
    pub a: u8,
}

impl Rgba {
    /// Opaque black, the color of the points whose orbit does not escape.
    pub open spec fn black_spec() -> Rgba {
        Rgba { r: 0, g: 0, b: 0, a: 255 }
    }

    /// The four bytes of a color in the order in which a pixel buffer holds
    /// them: red, green, blue, alpha.
    pub open spec fn bytes(self) -> Seq<u8> {
        seq![self.r, self.g, self.b, self.a]
    }

    /// Opaque black.
    pub fn black() -> (color: Rgba)
        ensures
            color == Rgba::black_spec(),
    {
        Rgba { r: 0, g: 0, b: 0, a: 255 }
    }

    /// The opaque color with the given red, green and blue channels.
    pub fn from_rgb(r: u8, g: u8, b: u8) -> (color: Rgba)
        ensures
            color == (Rgba { r, g, b, a: 255 }),
    {
        Rgba { r, g, b, a: 255 }
    }
}

/// The sector of the hue circle in which a hue of the given whole degrees
/// lies: sector `k` spans the degrees from `60·k` up to `60·k + 59`, and the
/// sixth and last sector, 5, takes every hue from 300 degrees on.
pub open spec fn hue_sector_spec(degrees: u32) -> nat {
    if degrees >= 300 {
        5
    } else {
        (degrees / 60) as nat
    }
}

/// Returns the sector of the six-sector hue decomposition for a hue given in
/// whole degrees.
pub fn hue_sector(degrees: u32) -> (sector: u8)
    ensures
        sector == hue_sector_spec(degrees),
        sector <= 5,
{
    if degrees >= 300 {
        5
    } else {
        (degrees / 60) as u8
    }
}

/// The colors of one scheme for one iteration budget, as a table: the shade at
/// index `i` is the red, green and blue of a point whose orbit escaped after
/// `i` iterations. The length of the table is the iteration budget, which
/// fits in 16 bits.
pub struct Palette {
    shades: Vec<(u8, u8, u8)>,
}

impl Palette {
    #[verifier::type_invariant]
    spec fn within_budget(self) -> bool {
        self.shades@.len() <= u16::MAX
    }

    /// The table of shades.
    pub closed spec fn shades(self) -> Seq<(u8, u8, u8)> {
        self.shades@
    }

    /// The iteration budget that the table was made for.
    pub open spec fn budget(self) -> nat {
        self.shades().len()
    }

    /// The color of a point with the given iteration count: opaque black for
    /// a count that reaches the iteration budget, else the shade of that
    /// count, fully opaque.
    pub open spec fn color_spec(self, iterations: nat) -> Rgba {
        if iterations >= self.budget() {
            Rgba::black_spec()
        } else {
            let shade = self.shades()[iterations as int];
            Rgba { r: shade.0, g: shade.1, b: shade.2, a: 255 }
        }
    }

    /// Makes a palette of a table of shades. There is none for a table with
    /// more than 65535 shades, since no iteration budget is that large.
    pub fn new(shades: Vec<(u8, u8, u8)>) -> (palette: Option<Palette>)
        ensures
            palette is Some <==> shades@.len() <= u16::MAX,
            palette is Some ==> palette.unwrap().shades() == shades@,
    {
        if shades.len() <= 65535 {
            Some(Palette { shades })
        } else {
            None
        }
    }

    /// Makes the palette of a coloring rule for the given iteration budget:
    /// the shade of each count below the budget is what `shade` returns for
    /// it. The rule is asked once for each count, in rising order.
    pub fn from_fn<F: Fn(u16) -> (u8, u8, u8)>(max_iterations: u16, shade: F) -> (palette: Palette)
        requires
            forall|count: u16| count < max_iterations ==> call_requires(shade, (count,)),
        ensures
            palette.budget() == max_iterations,
            forall|count: u16|
                count < max_iterations ==> call_ensures(
                    shade,
                    (count,),
                    #[trigger] palette.shades()[count as int],
                ),
    {
        let mut shades: Vec<(u8, u8, u8)> = Vec::new();
        let mut count: u16 = 0;
        while count < max_iterations
            invariant
                count <= max_iterations,
                shades@.len() == count,
                forall|other: u16| other < max_iterations ==> call_requires(shade, (other,)),
                forall|done: u16|
                    done < count ==> call_ensures(shade, (done,), #[trigger] shades@[done as int]),
            decreases max_iterations - count,
        {
            let next = shade(count);
            shades.push(next);
            count += 1;
        }
        Palette { shades }
    }

    /// Returns the iteration budget that the palette was made for.
    pub fn max_iterations(&self) -> (max_iterations: u16)
        ensures
            max_iterations == self.budget(),
    {
        proof {
            use_type_invariant(self);
        }
        self.shades.len() as u16
    }

    /// Converts the number of iterations to a color. A count that reaches
    /// the iteration budget gives opaque black, whatever the shades are.
    #[inline]
    #[must_use]
    pub fn to_color32(&self, iterations: u16) -> (color: Rgba)
        ensures
            color == self.color_spec(iterations as nat),
            iterations >= self.budget() ==> color == Rgba::black_spec(),
            color.a == 255,
    {
        if (iterations as usize) >= self.shades.len() {
            return Rgba::black();
        }
        let shade = self.shades[iterations as usize];
        Rgba::from_rgb(shade.0, shade.1, shade.2)
    }

    /// The interior color is fixed: two palettes, of any two schemes and any
    /// two budgets, give the same opaque black to every count that reaches
    /// their own budget.
    pub proof fn lemma_interior_color_is_fixed(
        self,
        other: Palette,
        iterations: nat,
        other_iterations: nat,
    )
        requires
            iterations >= self.budget(),
            other_iterations >= other.budget(),
        ensures
            self.color_spec(iterations) == other.color_spec(other_iterations),
            self.color_spec(iterations) == (Rgba { r: 0, g: 0, b: 0, a: 255 }),
    {
    }

    /// Every color that a palette gives is fully opaque.
    pub proof fn lemma_colors_are_opaque(self, iterations: nat)
        ensures
            self.color_spec(iterations).a == 255,
    {
    }
}

/// Enum representing different color schemes for fractal rendering.
#[derive(Clone, Debug, Copy, PartialEq, Eq, Structural)]
pub enum ColorScheme {
    Classic,
    Hot,
    Cool,
    Psychedelic,
    Sunset,
    Electric,
    Forest,
    Galaxy,
    Grayscale,
    UltraSmooth,
    DeepOcean,
    PrismaticFire,
    AuroralDream,
    CosmicNebula,
    RainbowSmooth,
    VelvetShadow,
    GoldenHour,
    MoltenLava,
    IcebergGlacier,
    NorthernLights,
    TropicalParadise,
    VaporwaveNeon,
    MidnightStars,
    CherryBlossom,
    QuantumPlasma,
    OpalDreams,
    DragonFire,
    AmethystCavern,
    SakuraRain,
    ElectricStorm,
}

impl Default for ColorScheme {
    /// The classic palette is the default scheme.
    fn default() -> (scheme: Self)
        ensures
            scheme == ColorScheme::Classic,
    {
        ColorScheme::Classic
    }
}

impl ColorScheme {
    /// The display name of each color scheme.
    pub open spec fn name_spec(self) -> Seq<char> {
        match self {
            ColorScheme::Classic => "Classic"@,
            ColorScheme::Hot => "Hot"@,
            ColorScheme::Cool => "Cool"@,
            ColorScheme::Grayscale => "Grayscale"@,
            ColorScheme::Psychedelic => "Psychedelic"@,
            ColorScheme::Sunset => "Sunset"@,
            ColorScheme::Electric => "Electric"@,
            ColorScheme::Forest => "Forest"@,
            ColorScheme::Galaxy => "Galaxy"@,
            ColorScheme::UltraSmooth => "Ultra Smooth"@,
            ColorScheme::DeepOcean => "Deep Ocean"@,
            ColorScheme::PrismaticFire => "Prismatic Fire"@,
            ColorScheme::AuroralDream => "Auroral Dream"@,
            ColorScheme::CosmicNebula => "Cosmic Nebula"@,
            ColorScheme::RainbowSmooth => "Rainbow Smooth"@,
            ColorScheme::VelvetShadow => "Velvet Shadow"@,
            ColorScheme::GoldenHour => "Golden Hour"@,
            ColorScheme::MoltenLava => "Molten Lava"@,
            ColorScheme::IcebergGlacier => "Iceberg Glacier"@,
            ColorScheme::NorthernLights => "Northern Lights"@,
            ColorScheme::TropicalParadise => "Tropical Paradise"@,
            ColorScheme::VaporwaveNeon => "Vaporwave Neon"@,
            ColorScheme::MidnightStars => "Midnight Stars"@,
            ColorScheme::CherryBlossom => "Cherry Blossom"@,
            ColorScheme::QuantumPlasma => "Quantum Plasma"@,
            ColorScheme::OpalDreams => "Opal Dreams"@,
            ColorScheme::DragonFire => "Dragon Fire"@,
            ColorScheme::AmethystCavern => "Amethyst Cavern"@,
            ColorScheme::SakuraRain => "Sakura Rain"@,
            ColorScheme::ElectricStorm => "Electric Storm"@,
        }
    }

    /// Every color scheme, in the order in which a menu lists them.
    pub open spec fn all_spec() -> Seq<ColorScheme> {
        seq![
            ColorScheme::Classic,
            ColorScheme::Hot,
            ColorScheme::Cool,
            ColorScheme::Grayscale,
            ColorScheme::Psychedelic,
            ColorScheme::Sunset,
            ColorScheme::Electric,
            ColorScheme::Forest,
            ColorScheme::Galaxy,
            ColorScheme::UltraSmooth,
            ColorScheme::DeepOcean,
            ColorScheme::PrismaticFire,
            ColorScheme::AuroralDream,
            ColorScheme::CosmicNebula,
            ColorScheme::RainbowSmooth,
            ColorScheme::VelvetShadow,
            ColorScheme::GoldenHour,
            ColorScheme::MoltenLava,
            ColorScheme::IcebergGlacier,
            ColorScheme::NorthernLights,
            ColorScheme::TropicalParadise,
            ColorScheme::VaporwaveNeon,
            ColorScheme::MidnightStars,
            ColorScheme::CherryBlossom,
            ColorScheme::QuantumPlasma,
            ColorScheme::OpalDreams,
            ColorScheme::DragonFire,
            ColorScheme::AmethystCavern,
            ColorScheme::SakuraRain,
            ColorScheme::ElectricStorm,
        ]
    }

    /// The place of each color scheme in the list of all schemes.
    pub open spec fn position(self) -> int {
        match self {
            ColorScheme::Classic => 0,
            ColorScheme::Hot => 1,
            ColorScheme::Cool => 2,
            ColorScheme::Grayscale => 3,
            ColorScheme::Psychedelic => 4,
            ColorScheme::Sunset => 5,
            ColorScheme::Electric => 6,
            ColorScheme::Forest => 7,
            ColorScheme::Galaxy => 8,
            ColorScheme::UltraSmooth => 9,
            ColorScheme::DeepOcean => 10,
            ColorScheme::PrismaticFire => 11,
            ColorScheme::AuroralDream => 12,
            ColorScheme::CosmicNebula => 13,
            ColorScheme::RainbowSmooth => 14,
            ColorScheme::VelvetShadow => 15,
            ColorScheme::GoldenHour => 16,
            ColorScheme::MoltenLava => 17,
            ColorScheme::IcebergGlacier => 18,
            ColorScheme::NorthernLights => 19,
            ColorScheme::TropicalParadise => 20,
            ColorScheme::VaporwaveNeon => 21,
            ColorScheme::MidnightStars => 22,
            ColorScheme::CherryBlossom => 23,
            ColorScheme::QuantumPlasma => 24,
            ColorScheme::OpalDreams => 25,
            ColorScheme::DragonFire => 26,
            ColorScheme::AmethystCavern => 27,
            ColorScheme::SakuraRain => 28,
            ColorScheme::ElectricStorm => 29,
        }
    }

    /// Returns the name of the color scheme.
    #[inline]
    pub fn name(&self) -> (s: &'static str)
        ensures
            s@ == self.name_spec(),
    {
        match self {
            ColorScheme::Classic => "Classic",
            ColorScheme::Hot => "Hot",
            ColorScheme::Cool => "Cool",
            ColorScheme::Grayscale => "Grayscale",
            ColorScheme::Psychedelic => "Psychedelic",
            ColorScheme::Sunset => "Sunset",
            ColorScheme::Electric => "Electric",
            ColorScheme::Forest => "Forest",
            ColorScheme::Galaxy => "Galaxy",
            ColorScheme::UltraSmooth => "Ultra Smooth",
            ColorScheme::DeepOcean => "Deep Ocean",
            ColorScheme::PrismaticFire => "Prismatic Fire",
            ColorScheme::AuroralDream => "Auroral Dream",
            ColorScheme::CosmicNebula => "Cosmic Nebula",
            ColorScheme::RainbowSmooth => "Rainbow Smooth",
            ColorScheme::VelvetShadow => "Velvet Shadow",
            ColorScheme::GoldenHour => "Golden Hour",
            ColorScheme::MoltenLava => "Molten Lava",
            ColorScheme::IcebergGlacier => "Iceberg Glacier",
            ColorScheme::NorthernLights => "Northern Lights",
            ColorScheme::TropicalParadise => "Tropical Paradise",
            ColorScheme::VaporwaveNeon => "Vaporwave Neon",
            ColorScheme::MidnightStars => "Midnight Stars",
            ColorScheme::CherryBlossom => "Cherry Blossom",
            ColorScheme::QuantumPlasma => "Quantum Plasma",
            ColorScheme::OpalDreams => "Opal Dreams",
            ColorScheme::DragonFire => "Dragon Fire",
            ColorScheme::AmethystCavern => "Amethyst Cavern",
            ColorScheme::SakuraRain => "Sakura Rain",
            ColorScheme::ElectricStorm => "Electric Storm",
        }
    }

    /// Returns all available color schemes.
    #[inline]
    pub fn all() -> (schemes: [Self; 30])
        ensures
            schemes@ == Self::all_spec(),
    {
        let schemes = [
            ColorScheme::Classic,
            ColorScheme::Hot,
            ColorScheme::Cool,
            ColorScheme::Grayscale,
            ColorScheme::Psychedelic,
            ColorScheme::Sunset,
            ColorScheme::Electric,
            ColorScheme::Forest,
            ColorScheme::Galaxy,
            ColorScheme::UltraSmooth,
            ColorScheme::DeepOcean,
            ColorScheme::PrismaticFire,
            ColorScheme::AuroralDream,
            ColorScheme::CosmicNebula,
            ColorScheme::RainbowSmooth,
            ColorScheme::VelvetShadow,
            ColorScheme::GoldenHour,
            ColorScheme::MoltenLava,
            ColorScheme::IcebergGlacier,
            ColorScheme::NorthernLights,
            ColorScheme::TropicalParadise,
            ColorScheme::VaporwaveNeon,
            ColorScheme::MidnightStars,
            ColorScheme::CherryBlossom,
            ColorScheme::QuantumPlasma,
            ColorScheme::OpalDreams,
            ColorScheme::DragonFire,
            ColorScheme::AmethystCavern,
            ColorScheme::SakuraRain,
            ColorScheme::ElectricStorm,
        ];
        assert(schemes@ =~= Self::all_spec());
        schemes
    }

    /// The list of all schemes is complete and free of repetition: each
    /// scheme stands in it at its own position and nowhere else.
    pub proof fn lemma_all_lists_each_scheme_once(scheme: ColorScheme)
        ensures
            0 <= scheme.position() < Self::all_spec().len(),
            Self::all_spec().len() == 30,
            Self::all_spec()[scheme.position()] == scheme,
            forall|i: int|
                0 <= i < 30 && #[trigger] Self::all_spec()[i] == scheme ==> i
                    == scheme.position(),
    {
    }
}

} // verus!
