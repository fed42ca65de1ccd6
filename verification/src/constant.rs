//! The constant registry: build strings and physical constants, fixed when
//! the library is built and never changed afterwards.
//!
//! A physical constant is a double. The registry holds it as the IEEE 754
//! bit pattern of that double, so that the value is kept bit for bit and can
//! be compared, copied and encoded as an integer.

use vstd::prelude::*;

verus! {

/// The date the library was built.
pub const BUILD_DATE: &'static str = "2023-10-24";

/// The Git commit SHA the library was built from.
pub const COMMIT_SHA: &'static str = "a1b2c3d";

/// The version of the Rust compiler used to build the library.
pub const RUSTC_VERSION: &'static str = "1.70.0-nightly";

/// The target triple for which the library was built.
pub const CARGO_TARGET_TRIPLE: &'static str = "x86_64-unknown-linux-gnu";

/// Operating system and version information of the build environment.
pub const SYSTEM_INFO: &'static str = "Linux Arch Linux";

/// A build string is vetted: it is not empty and holds printable ASCII only,
/// so in particular no NUL.
pub open spec fn is_vetted_text(text: Seq<char>) -> bool {
    &&& text.len() > 0
    &&& forall|i: int| 0 <= i < text.len() ==> ' ' <= #[trigger] text[i] <= '~'
}

/// Returns the build date (e.g., "2023-10-24").
#[must_use]
pub fn get_build_date() -> (date: &'static str)
    ensures
        date@ == BUILD_DATE@,
        is_vetted_text(date@),
{
    proof {
        reveal_strlit("2023-10-24");
    }
    BUILD_DATE
}

/// Returns the Git short SHA for the current commit.
#[must_use]
pub fn get_commit_sha() -> (sha: &'static str)
    ensures
        sha@ == COMMIT_SHA@,
        is_vetted_text(sha@),
{
    proof {
        reveal_strlit("a1b2c3d");
    }
    COMMIT_SHA
}

/// Returns the rustc semantic version (e.g., "1.70.0-nightly").
#[must_use]
pub fn get_rustc_version() -> (version: &'static str)
    ensures
        version@ == RUSTC_VERSION@,
        is_vetted_text(version@),
{
    proof {
        reveal_strlit("1.70.0-nightly");
    }
    RUSTC_VERSION
}

/// Returns the Cargo target triple (e.g., "x86_64-unknown-linux-gnu").
#[must_use]
pub fn get_cargo_target_triple() -> (triple: &'static str)
    ensures
        triple@ == CARGO_TARGET_TRIPLE@,
        is_vetted_text(triple@),
{
    proof {
        reveal_strlit("x86_64-unknown-linux-gnu");
    }
    CARGO_TARGET_TRIPLE
}

/// Returns the system information string (e.g., "Linux Arch Linux").
#[must_use]
pub fn get_system_info() -> (info: &'static str)
    ensures
        info@ == SYSTEM_INFO@,
        is_vetted_text(info@),
{
    proof {
        reveal_strlit("Linux Arch Linux");
    }
    SYSTEM_INFO
}

/// A value of the registry, as contracts speak of it.
pub enum NativeValue {
    /// The bit pattern of a double.
    Number(u64),
    /// A text.
    Text(Seq<char>),
}

/// A value of the registry: a number, held as the bit pattern of its double,
/// or a text.
#[derive(Debug)]
pub enum Value {
    /// The IEEE 754 bit pattern of a double.
    Number(u64),
    /// A text.
    Text(String),
}

impl View for Value {
    type V = NativeValue;

    open spec fn view(&self) -> NativeValue {
        match self {
            Value::Number(bits) => NativeValue::Number(*bits),
            Value::Text(text) => NativeValue::Text(text@),
        }
    }
}

/// One entry of the registry.
#[derive(Debug)]
pub struct ConstantEntry {
    /// The name the entry is published under.
    pub name: &'static str,
    /// The value itself.
    pub value: Value,
    /// The physical unit; empty for a build string.
    pub unit: &'static str,
    /// The published uncertainty; empty for a build string.
    pub uncertainty: &'static str,
    /// What the value describes.
    pub description: &'static str,
}

/// The closed set of names under which the registry holds a value.
#[derive(Clone, Copy, Debug, PartialEq, Eq, Structural)]
pub enum Identifier {
    /// The date on which the library was built.
    BuildDate,
    /// The Git commit the library was built from.
    CommitSha,
    /// The version of the compiler that built the library.
    RustcVersion,
    /// The target triple the library was built for.
    CargoTargetTriple,
    /// The operating system of the build environment.
    SystemInfo,
    /// The speed of light in vacuum: 299_792_458.0 m s⁻¹.
    SpeedOfLight,
    /// The Planck constant: 6.626_070_15e-34 J Hz⁻¹.
    PlanckConstant,
    /// The elementary charge: 1.602_176_634e-19 C.
    ElementaryCharge,
    /// The Boltzmann constant: 1.380_649e-23 J K⁻¹.
    BoltzmannConstant,
    /// The Avogadro constant: 6.022_140_76e23 mol⁻¹.
    AvogadroConstant,
    /// The Newtonian constant of gravitation: 6.674_30e-11 m³ kg⁻¹ s⁻².
    GravitationalConstant,
    /// The electron mass: 9.109_383_713_9e-31 kg.
    ElectronMass,
    /// The fine-structure constant: 7.297_352_564_3e-3.
    FineStructureConstant,
    /// The Rydberg constant: 10_973_731.568_157 m⁻¹.
    RydbergConstant,
    /// The vacuum electric permittivity: 8.854_187_818_8e-12 F m⁻¹.
    VacuumElectricPermittivity,
    /// The vacuum magnetic permeability: 1.256_637_061_27e-6 N A⁻².
    VacuumMagneticPermeability,
    /// The Josephson constant (2e/h): 483_597.848_4e9 Hz V⁻¹.
    JosephsonConstant,
    /// The von Klitzing constant (h/e²): 25_812.807_45 Ω.
    VonKlitzingConstant,
    /// The magnetic flux quantum (h/2e): 2.067_833_848e-15 Wb.
    MagneticFluxQuantum,
    /// The proton mass: 1.672_621_925_95e-27 kg.
    ProtonMassKg,
    /// The neutron mass in atomic mass units: 1.008_664_916_06 u.
    NeutronMassU,
    /// The atomic mass constant (m_u): 1.660_539_068_92e-27 kg.
    AtomicMassConstant,
    /// The proton-electron mass ratio: 1_836.152_673_426.
    ProtonElectronMassRatio,
    /// The Bohr magneton: 9.274_010_065_7e-24 J T⁻¹.
    BohrMagneton,
    /// The nuclear magneton: 5.050_783_739_3e-27 J T⁻¹.
    NuclearMagneton,
    /// The electron g-factor: -2.002_319_304_360_92.
    ElectronGFactor,
    /// The molar gas constant: 8.314_462_618 J mol⁻¹ K⁻¹.
    MolarGasConstant,
    /// The Faraday constant: 96_485.332_12 C mol⁻¹.
    FaradayConstant,
    /// The Stefan-Boltzmann constant: 5.670_374_419e-8 W m⁻² K⁻⁴.
    StefanBoltzmannConstant,
    /// The reduced Planck constant (h-bar): 1.054_571_817e-34 J s.
    ReducedPlanckConstant,
    /// The inverse fine-structure constant (1/α): 137.035_999_177.
    InverseFineStructureConstant,
    /// The Bohr radius (a₀): 5.291_772_105_44e-11 m.
    BohrRadius,
    /// The Hartree energy (Eh): 4.359_744_722_206_0e-18 J.
    HartreeEnergy,
    /// The electron mass in atomic mass units: 5.485_799_090_441e-4 u.
    ElectronMassU,
    /// The proton mass in atomic mass units: 1.007_276_466_578_9 u.
    ProtonMassU,
    /// The deuteron mass in atomic mass units: 2.013_553_212_544 u.
    DeuteronMassU,
    /// The alpha particle mass in atomic mass units: 4.001_506_179_129 u.
    AlphaParticleMassU,
    /// The classical electron radius: 2.817_940_320_5e-15 m.
    ClassicalElectronRadius,
    /// The Thomson cross section: 6.652_458_705_1e-29 m².
    ThomsonCrossSection,
    /// The Wien displacement law constant (b): 2.897_771_955e-3 m K.
    WienDisplacementConstant,
    /// The first radiation constant (c₁): 3.741_771_852e-16 W m².
    FirstRadiationConstant,
    /// The second radiation constant (c₂): 1.438_776_877e-2 m K.
    SecondRadiationConstant,
    /// The muon g-factor: -2.002_331_841_23.
    MuonGFactor,
    /// The muon mass in atomic mass units: 0.113_428_925_7 u.
    MuonMassU,
    /// The muon-electron mass ratio: 206.768_282_7.
    MuonElectronMassRatio,
    /// The proton magnetic moment: 1.410_606_795_45e-26 J T⁻¹.
    ProtonMagneticMoment,
    /// The neutron magnetic moment: -9.662_365_3e-27 J T⁻¹.
    NeutronMagneticMoment,
    /// The proton magnetic shielding correction (H2O sphere, 25°C): 2.567_15e-5.
    ProtonMagneticShieldingCorrection,
    /// The shielded proton gyromagnetic ratio (H2O, sphere, 25°C): 2.675_153_194e8 s⁻¹ T⁻¹.
    ShieldedProtonGyromagneticRatio,
    /// The neutron-proton mass ratio: 1.001_378_419_46.
    NeutronProtonMassRatio,
    /// The electron-muon mass ratio: 4.836_331_70e-3.
    ElectronMuonMassRatio,
    /// The deuteron-proton mass ratio: 1.999_007_501_269_9.
    DeuteronProtonMassRatio,
    /// The electron charge to mass quotient: -1.758_820_008_38e11 C kg⁻¹.
    ElectronChargeToMassQuotient,
    /// The molar volume of ideal gas: 22.413_969_54e-3 m³ mol⁻¹.
    MolarVolumeIdealGas,
    /// The muon magnetic moment: -4.490_448_30e-26 J T⁻¹.
    MuonMagneticMoment,
}

/// The value held under `id`: the text of a build string, or the bit pattern
/// of the double that a physical constant is published as.
pub open spec fn native_value(id: Identifier) -> NativeValue {
    match id {
        Identifier::BuildDate => NativeValue::Text(BUILD_DATE@),
        Identifier::CommitSha => NativeValue::Text(COMMIT_SHA@),
        Identifier::RustcVersion => NativeValue::Text(RUSTC_VERSION@),
        Identifier::CargoTargetTriple => NativeValue::Text(CARGO_TARGET_TRIPLE@),
        Identifier::SystemInfo => NativeValue::Text(SYSTEM_INFO@),
        Identifier::SpeedOfLight => NativeValue::Number(0x41b1_de78_4a00_0000u64),
        Identifier::PlanckConstant => NativeValue::Number(0x390b_860b_de02_3111u64),
        Identifier::ElementaryCharge => NativeValue::Number(0x3c07_a4da_290c_1653u64),
        Identifier::BoltzmannConstant => NativeValue::Number(0x3b30_b0e6_d55e_647cu64),
        Identifier::AvogadroConstant => NativeValue::Number(0x44df_e185_ca57_c517u64),
        Identifier::GravitationalConstant => NativeValue::Number(0x3dd2_589e_ffed_8accu64),
        Identifier::ElectronMass => NativeValue::Number(0x39b2_79dc_c922_bcd9u64),
        Identifier::FineStructureConstant => NativeValue::Number(0x3f7d_e3d4_29c6_dc9du64),
        Identifier::RydbergConstant => NativeValue::Number(0x4164_ee44_722e_5797u64),
        Identifier::VacuumElectricPermittivity => NativeValue::Number(0x3da3_7876_f159_1150u64),
        Identifier::VacuumMagneticPermeability => NativeValue::Number(0x3eb5_1537_0f8e_0229u64),
        Identifier::JosephsonConstant => NativeValue::Number(0x42fb_7d46_5f7d_0800u64),
        Identifier::VonKlitzingConstant => NativeValue::Number(0x40d9_3533_ad42_c3cau64),
        Identifier::MagneticFluxQuantum => NativeValue::Number(0x3ce2_a019_a830_a613u64),
        Identifier::ProtonMassKg => NativeValue::Number(0x3a60_9099_b24a_c3fdu64),
        Identifier::NeutronMassU => NativeValue::Number(0x3ff0_237d_d2b1_9ac5u64),
        Identifier::AtomicMassConstant => NativeValue::Number(0x3a60_71f7_7950_193fu64),
        Identifier::ProtonElectronMassRatio => NativeValue::Number(0x409c_b09c_566c_2e8eu64),
        Identifier::BohrMagneton => NativeValue::Number(0x3b26_6c55_8da4_4f18u64),
        Identifier::NuclearMagneton => NativeValue::Number(0x3a79_02a1_08ae_ecadu64),
        Identifier::ElectronGFactor => NativeValue::Number(0xc000_04bf_fbc3_0977u64),
        Identifier::MolarGasConstant => NativeValue::Number(0x4020_a101_3e88_3fc4u64),
        Identifier::FaradayConstant => NativeValue::Number(0x40f7_8e55_505d_0fa6u64),
        Identifier::StefanBoltzmannConstant => NativeValue::Number(0x3e6e_714d_a268_c0ccu64),
        Identifier::ReducedPlanckConstant => NativeValue::Number(0x38e1_85a7_054e_4c91u64),
        Identifier::InverseFineStructureConstant => NativeValue::Number(0x4061_2126_e7be_fcbcu64),
        Identifier::BohrRadius => NativeValue::Number(0x3dcd_1781_d4a0_926bu64),
        Identifier::HartreeEnergy => NativeValue::Number(0x3c54_1b13_fd8a_e92au64),
        Identifier::ElectronMassU => NativeValue::Number(0x3f41_f9d2_6261_0f98u64),
        Identifier::ProtonMassU => NativeValue::Number(0x3ff0_1dcd_ed9f_c9fcu64),
        Identifier::DeuteronMassU => NativeValue::Number(0x4000_1bc1_c965_0ec8u64),
        Identifier::AlphaParticleMassU => NativeValue::Number(0x4010_018a_d5f8_6765u64),
        Identifier::ClassicalElectronRadius => NativeValue::Number(0x3ce9_61ba_5d72_bd04u64),
        Identifier::ThomsonCrossSection => NativeValue::Number(0x3a15_151d_9e10_9bf3u64),
        Identifier::WienDisplacementConstant => NativeValue::Number(0x3f67_bd11_78e5_4d59u64),
        Identifier::FirstRadiationConstant => NativeValue::Number(0x3cba_f659_cc4c_8b96u64),
        Identifier::SecondRadiationConstant => NativeValue::Number(0x3f8d_7755_a2a2_f06eu64),
        Identifier::MuonGFactor => NativeValue::Number(0xc000_04c6_8e6e_941au64),
        Identifier::MuonMassU => NativeValue::Number(0x3fbd_09ad_964d_4a3bu64),
        Identifier::MuonElectronMassRatio => NativeValue::Number(0x4069_d895_c599_d2a4u64),
        Identifier::ProtonMagneticMoment => NativeValue::Number(0x3a91_7664_314e_4372u64),
        Identifier::NeutronMagneticMoment => NativeValue::Number(0xba87_ec40_67f2_15f3u64),
        Identifier::ProtonMagneticShieldingCorrection => NativeValue::Number(0x3efa_eb24_0c0a_0aacu64),
        Identifier::ShieldedProtonGyromagneticRatio => NativeValue::Number(0x41af_e3eb_6ecc_cccdu64),
        Identifier::NeutronProtonMassRatio => NativeValue::Number(0x3ff0_05a5_60a8_0390u64),
        Identifier::ElectronMuonMassRatio => NativeValue::Number(0x3f73_cf42_e7be_e81eu64),
        Identifier::DeuteronProtonMassRatio => NativeValue::Number(0x3fff_fbef_4a26_9b3cu64),
        Identifier::ElectronChargeToMassQuotient => NativeValue::Number(0xc244_79b1_2ce3_0000u64),
        Identifier::MolarVolumeIdealGas => NativeValue::Number(0x3f96_f3b0_0897_6369u64),
        Identifier::MuonMagneticMoment => NativeValue::Number(0xbaab_cb66_3c07_b216u64),
    }
}

/// The name that `id` is published under.
pub open spec fn name_of(id: Identifier) -> Seq<char> {
    match id {
        Identifier::BuildDate => "build_date"@,
        Identifier::CommitSha => "commit_sha"@,
        Identifier::RustcVersion => "rustc_version"@,
        Identifier::CargoTargetTriple => "cargo_target_triple"@,
        Identifier::SystemInfo => "system_info"@,
        Identifier::SpeedOfLight => "speed_of_light"@,
        Identifier::PlanckConstant => "planck_constant"@,
        Identifier::ElementaryCharge => "elementary_charge"@,
        Identifier::BoltzmannConstant => "boltzmann_constant"@,
        Identifier::AvogadroConstant => "avogadro_constant"@,
        Identifier::GravitationalConstant => "gravitational_constant"@,
        Identifier::ElectronMass => "electron_mass"@,
        Identifier::FineStructureConstant => "fine_structure_constant"@,
        Identifier::RydbergConstant => "rydberg_constant"@,
        Identifier::VacuumElectricPermittivity => "vacuum_electric_permittivity"@,
        Identifier::VacuumMagneticPermeability => "vacuum_magnetic_permeability"@,
        Identifier::JosephsonConstant => "josephson_constant"@,
        Identifier::VonKlitzingConstant => "von_klitzing_constant"@,
        Identifier::MagneticFluxQuantum => "magnetic_flux_quantum"@,
        Identifier::ProtonMassKg => "proton_mass_kg"@,
        Identifier::NeutronMassU => "neutron_mass_u"@,
        Identifier::AtomicMassConstant => "atomic_mass_constant"@,
        Identifier::ProtonElectronMassRatio => "proton_electron_mass_ratio"@,
        Identifier::BohrMagneton => "bohr_magneton"@,
        Identifier::NuclearMagneton => "nuclear_magneton"@,
        Identifier::ElectronGFactor => "electron_g_factor"@,
        Identifier::MolarGasConstant => "molar_gas_constant"@,
        Identifier::FaradayConstant => "faraday_constant"@,
        Identifier::StefanBoltzmannConstant => "stefan_boltzmann_constant"@,
        Identifier::ReducedPlanckConstant => "reduced_planck_constant"@,
        Identifier::InverseFineStructureConstant => "inverse_fine_structure_constant"@,
        Identifier::BohrRadius => "bohr_radius"@,
        Identifier::HartreeEnergy => "hartree_energy"@,
        Identifier::ElectronMassU => "electron_mass_u"@,
        Identifier::ProtonMassU => "proton_mass_u"@,
        Identifier::DeuteronMassU => "deuteron_mass_u"@,
        Identifier::AlphaParticleMassU => "alpha_particle_mass_u"@,
        Identifier::ClassicalElectronRadius => "classical_electron_radius"@,
        Identifier::ThomsonCrossSection => "thomson_cross_section"@,
        Identifier::WienDisplacementConstant => "wien_displacement_constant"@,
        Identifier::FirstRadiationConstant => "first_radiation_constant"@,
        Identifier::SecondRadiationConstant => "second_radiation_constant"@,
        Identifier::MuonGFactor => "muon_g_factor"@,
        Identifier::MuonMassU => "muon_mass_u"@,
        Identifier::MuonElectronMassRatio => "muon_electron_mass_ratio"@,
        Identifier::ProtonMagneticMoment => "proton_magnetic_moment"@,
        Identifier::NeutronMagneticMoment => "neutron_magnetic_moment"@,
        Identifier::ProtonMagneticShieldingCorrection => "proton_magnetic_shielding_correction"@,
        Identifier::ShieldedProtonGyromagneticRatio => "shielded_proton_gyromagnetic_ratio"@,
        Identifier::NeutronProtonMassRatio => "neutron_proton_mass_ratio"@,
        Identifier::ElectronMuonMassRatio => "electron_muon_mass_ratio"@,
        Identifier::DeuteronProtonMassRatio => "deuteron_proton_mass_ratio"@,
        Identifier::ElectronChargeToMassQuotient => "electron_charge_to_mass_quotient"@,
        Identifier::MolarVolumeIdealGas => "molar_volume_ideal_gas"@,
        Identifier::MuonMagneticMoment => "muon_magnetic_moment"@,
    }
}

/// The physical unit of the value held under `id`; empty for a build string.
pub open spec fn unit_of(id: Identifier) -> Seq<char> {
    match id {
        Identifier::BuildDate => ""@,
        Identifier::CommitSha => ""@,
        Identifier::RustcVersion => ""@,
        Identifier::CargoTargetTriple => ""@,
        Identifier::SystemInfo => ""@,
        Identifier::SpeedOfLight => "m s⁻¹"@,
        Identifier::PlanckConstant => "J Hz⁻¹"@,
        Identifier::ElementaryCharge => "C"@,
        Identifier::BoltzmannConstant => "J K⁻¹"@,
        Identifier::AvogadroConstant => "mol⁻¹"@,
        Identifier::GravitationalConstant => "m³ kg⁻¹ s⁻²"@,
        Identifier::ElectronMass => "kg"@,
        Identifier::FineStructureConstant => "dimensionless"@,
        Identifier::RydbergConstant => "m⁻¹"@,
        Identifier::VacuumElectricPermittivity => "F m⁻¹"@,
        Identifier::VacuumMagneticPermeability => "N A⁻²"@,
        Identifier::JosephsonConstant => "Hz V⁻¹"@,
        Identifier::VonKlitzingConstant => "Ω"@,
        Identifier::MagneticFluxQuantum => "Wb"@,
        Identifier::ProtonMassKg => "kg"@,
        Identifier::NeutronMassU => "u"@,
        Identifier::AtomicMassConstant => "kg"@,
        Identifier::ProtonElectronMassRatio => "dimensionless"@,
        Identifier::BohrMagneton => "J T⁻¹"@,
        Identifier::NuclearMagneton => "J T⁻¹"@,
        Identifier::ElectronGFactor => "dimensionless"@,
        Identifier::MolarGasConstant => "J mol⁻¹ K⁻¹"@,
        Identifier::FaradayConstant => "C mol⁻¹"@,
        Identifier::StefanBoltzmannConstant => "W m⁻² K⁻⁴"@,
        Identifier::ReducedPlanckConstant => "J s"@,
        Identifier::InverseFineStructureConstant => "dimensionless"@,
        Identifier::BohrRadius => "m"@,
        Identifier::HartreeEnergy => "J"@,
        Identifier::ElectronMassU => "u"@,
        Identifier::ProtonMassU => "u"@,
        Identifier::DeuteronMassU => "u"@,
        Identifier::AlphaParticleMassU => "u"@,
        Identifier::ClassicalElectronRadius => "m"@,
        Identifier::ThomsonCrossSection => "m²"@,
        Identifier::WienDisplacementConstant => "m K"@,
        Identifier::FirstRadiationConstant => "W m²"@,
        Identifier::SecondRadiationConstant => "m K"@,
        Identifier::MuonGFactor => "dimensionless"@,
        Identifier::MuonMassU => "u"@,
        Identifier::MuonElectronMassRatio => "dimensionless"@,
        Identifier::ProtonMagneticMoment => "J T⁻¹"@,
        Identifier::NeutronMagneticMoment => "J T⁻¹"@,
        Identifier::ProtonMagneticShieldingCorrection => "dimensionless"@,
        Identifier::ShieldedProtonGyromagneticRatio => "s⁻¹ T⁻¹"@,
        Identifier::NeutronProtonMassRatio => "dimensionless"@,
        Identifier::ElectronMuonMassRatio => "dimensionless"@,
        Identifier::DeuteronProtonMassRatio => "dimensionless"@,
        Identifier::ElectronChargeToMassQuotient => "C kg⁻¹"@,
        Identifier::MolarVolumeIdealGas => "m³ mol⁻¹"@,
        Identifier::MuonMagneticMoment => "J T⁻¹"@,
    }
}

/// The published uncertainty of the value held under `id`; empty for a build string.
pub open spec fn uncertainty_of(id: Identifier) -> Seq<char> {
    match id {
        Identifier::BuildDate => ""@,
        Identifier::CommitSha => ""@,
        Identifier::RustcVersion => ""@,
        Identifier::CargoTargetTriple => ""@,
        Identifier::SystemInfo => ""@,
        Identifier::SpeedOfLight => "exact"@,
        Identifier::PlanckConstant => "exact"@,
        Identifier::ElementaryCharge => "exact"@,
        Identifier::BoltzmannConstant => "exact"@,
        Identifier::AvogadroConstant => "exact"@,
        Identifier::GravitationalConstant => "0.00015 x 10⁻¹¹"@,
        Identifier::ElectronMass => "2.8e-40"@,
        Identifier::FineStructureConstant => "0.000_000_001_1e-3"@,
        Identifier::RydbergConstant => "0.000_000_012"@,
        Identifier::VacuumElectricPermittivity => "0.000_000_001_4e-12"@,
        Identifier::VacuumMagneticPermeability => "0.000_000_000_20e-6"@,
        Identifier::JosephsonConstant => "exact (definition based)"@,
        Identifier::VonKlitzingConstant => "exact (definition based)"@,
        Identifier::MagneticFluxQuantum => "exact (definition based)"@,
        Identifier::ProtonMassKg => "0.000_000_000_52e-27"@,
        Identifier::NeutronMassU => "0.000_000_000_40"@,
        Identifier::AtomicMassConstant => "0.000_000_000_52e-27"@,
        Identifier::ProtonElectronMassRatio => "0.000_000_032"@,
        Identifier::BohrMagneton => "0.000_000_002_9e-24"@,
        Identifier::NuclearMagneton => "0.000_000_001_6e-27"@,
        Identifier::ElectronGFactor => "0.000_000_000_000_36"@,
        Identifier::MolarGasConstant => "exact (defined by R = Na * k)"@,
        Identifier::FaradayConstant => "exact (defined by F = Na * e)"@,
        Identifier::StefanBoltzmannConstant => "exact (calculated from k, h, c)"@,
        Identifier::ReducedPlanckConstant => "uncertainty in source"@,
        Identifier::InverseFineStructureConstant => "0.000_000_021"@,
        Identifier::BohrRadius => "0.000_000_000_82e-11"@,
        Identifier::HartreeEnergy => "0.000_000_000_004_8e-18"@,
        Identifier::ElectronMassU => "0.000_000_000_097e-4"@,
        Identifier::ProtonMassU => "0.000_000_000_008_3"@,
        Identifier::DeuteronMassU => "0.000_000_000_015"@,
        Identifier::AlphaParticleMassU => "0.000_000_000_062"@,
        Identifier::ClassicalElectronRadius => "0.000_000_001_3e-15"@,
        Identifier::ThomsonCrossSection => "0.000_000_006_2e-29"@,
        Identifier::WienDisplacementConstant => "exact (calculated)"@,
        Identifier::FirstRadiationConstant => "exact (calculated)"@,
        Identifier::SecondRadiationConstant => "exact (calculated)"@,
        Identifier::MuonGFactor => "0.000_000_000_82"@,
        Identifier::MuonMassU => "0.000_000_002_5"@,
        Identifier::MuonElectronMassRatio => "0.000_004_6"@,
        Identifier::ProtonMagneticMoment => "0.000_000_000_60e-26"@,
        Identifier::NeutronMagneticMoment => "0.000_002_3e-27"@,
        Identifier::ProtonMagneticShieldingCorrection => "0.000_41e-5"@,
        Identifier::ShieldedProtonGyromagneticRatio => "0.000_000_011e8"@,
        Identifier::NeutronProtonMassRatio => "0.000_000_000_40"@,
        Identifier::ElectronMuonMassRatio => "0.000_000_11e-3"@,
        Identifier::DeuteronProtonMassRatio => "0.000_000_000_008_4"@,
        Identifier::ElectronChargeToMassQuotient => "0.000_000_000_55e11"@,
        Identifier::MolarVolumeIdealGas => "exact (at 273.15 K, 101.325 kPa)"@,
        Identifier::MuonMagneticMoment => "0.000_000_10e-26"@,
    }
}

/// What the value held under `id` describes.
pub open spec fn description_of(id: Identifier) -> Seq<char> {
    match id {
        Identifier::BuildDate => "date on which the library was built"@,
        Identifier::CommitSha => "Git commit the library was built from"@,
        Identifier::RustcVersion => "version of the compiler that built the library"@,
        Identifier::CargoTargetTriple => "target triple the library was built for"@,
        Identifier::SystemInfo => "operating system of the build environment"@,
        Identifier::SpeedOfLight => "speed of light in vacuum"@,
        Identifier::PlanckConstant => "Planck constant"@,
        Identifier::ElementaryCharge => "elementary charge"@,
        Identifier::BoltzmannConstant => "Boltzmann constant"@,
        Identifier::AvogadroConstant => "Avogadro constant"@,
        Identifier::GravitationalConstant => "Newtonian constant of gravitation"@,
        Identifier::ElectronMass => "electron mass"@,
        Identifier::FineStructureConstant => "fine-structure constant"@,
        Identifier::RydbergConstant => "Rydberg constant"@,
        Identifier::VacuumElectricPermittivity => "vacuum electric permittivity"@,
        Identifier::VacuumMagneticPermeability => "vacuum magnetic permeability"@,
        Identifier::JosephsonConstant => "Josephson constant (2e/h)"@,
        Identifier::VonKlitzingConstant => "von Klitzing constant (h/e²)"@,
        Identifier::MagneticFluxQuantum => "magnetic flux quantum (h/2e)"@,
        Identifier::ProtonMassKg => "proton mass"@,
        Identifier::NeutronMassU => "neutron mass in atomic mass units"@,
        Identifier::AtomicMassConstant => "atomic mass constant (m_u)"@,
        Identifier::ProtonElectronMassRatio => "proton-electron mass ratio"@,
        Identifier::BohrMagneton => "Bohr magneton"@,
        Identifier::NuclearMagneton => "nuclear magneton"@,
        Identifier::ElectronGFactor => "electron g-factor"@,
        Identifier::MolarGasConstant => "molar gas constant"@,
        Identifier::FaradayConstant => "Faraday constant"@,
        Identifier::StefanBoltzmannConstant => "Stefan-Boltzmann constant"@,
        Identifier::ReducedPlanckConstant => "reduced Planck constant (h-bar)"@,
        Identifier::InverseFineStructureConstant => "inverse fine-structure constant (1/α)"@,
        Identifier::BohrRadius => "Bohr radius (a₀)"@,
        Identifier::HartreeEnergy => "Hartree energy (Eh)"@,
        Identifier::ElectronMassU => "electron mass in atomic mass units"@,
        Identifier::ProtonMassU => "proton mass in atomic mass units"@,
        Identifier::DeuteronMassU => "deuteron mass in atomic mass units"@,
        Identifier::AlphaParticleMassU => "alpha particle mass in atomic mass units"@,
        Identifier::ClassicalElectronRadius => "classical electron radius"@,
        Identifier::ThomsonCrossSection => "Thomson cross section"@,
        Identifier::WienDisplacementConstant => "Wien displacement law constant (b)"@,
        Identifier::FirstRadiationConstant => "first radiation constant (c₁)"@,
        Identifier::SecondRadiationConstant => "second radiation constant (c₂)"@,
        Identifier::MuonGFactor => "muon g-factor"@,
        Identifier::MuonMassU => "muon mass in atomic mass units"@,
        Identifier::MuonElectronMassRatio => "muon-electron mass ratio"@,
        Identifier::ProtonMagneticMoment => "proton magnetic moment"@,
        Identifier::NeutronMagneticMoment => "neutron magnetic moment"@,
        Identifier::ProtonMagneticShieldingCorrection => "proton magnetic shielding correction (H2O sphere, 25°C)"@,
        Identifier::ShieldedProtonGyromagneticRatio => "shielded proton gyromagnetic ratio (H2O, sphere, 25°C)"@,
        Identifier::NeutronProtonMassRatio => "neutron-proton mass ratio"@,
        Identifier::ElectronMuonMassRatio => "electron-muon mass ratio"@,
        Identifier::DeuteronProtonMassRatio => "deuteron-proton mass ratio"@,
        Identifier::ElectronChargeToMassQuotient => "electron charge to mass quotient"@,
        Identifier::MolarVolumeIdealGas => "molar volume of ideal gas"@,
        Identifier::MuonMagneticMoment => "muon magnetic moment"@,
    }
}

/// Returns the registry entry of `id`. Total: every identifier has an entry.
pub fn entry(id: Identifier) -> (e: ConstantEntry)
    ensures
        e.name@ == name_of(id),
        e.value@ == native_value(id),
        e.unit@ == unit_of(id),
        e.uncertainty@ == uncertainty_of(id),
        e.description@ == description_of(id),
{
    match id {
        Identifier::BuildDate => ConstantEntry {
            name: "build_date",
            value: Value::Text(get_build_date().to_owned()),
            unit: "",
            uncertainty: "",
            description: "date on which the library was built",
        },
        Identifier::CommitSha => ConstantEntry {
            name: "commit_sha",
            value: Value::Text(get_commit_sha().to_owned()),
            unit: "",
            uncertainty: "",
            description: "Git commit the library was built from",
        },
        Identifier::RustcVersion => ConstantEntry {
            name: "rustc_version",
            value: Value::Text(get_rustc_version().to_owned()),
            unit: "",
            uncertainty: "",
            description: "version of the compiler that built the library",
        },
        Identifier::CargoTargetTriple => ConstantEntry {
            name: "cargo_target_triple",
            value: Value::Text(get_cargo_target_triple().to_owned()),
            unit: "",
            uncertainty: "",
            description: "target triple the library was built for",
        },
        Identifier::SystemInfo => ConstantEntry {
            name: "system_info",
            value: Value::Text(get_system_info().to_owned()),
            unit: "",
            uncertainty: "",
            description: "operating system of the build environment",
        },
        Identifier::SpeedOfLight => ConstantEntry {
            name: "speed_of_light",
            value: Value::Number(0x41b1_de78_4a00_0000u64),
            unit: "m s⁻¹",
            uncertainty: "exact",
            description: "speed of light in vacuum",
        },
        Identifier::PlanckConstant => ConstantEntry {
            name: "planck_constant",
            value: Value::Number(0x390b_860b_de02_3111u64),
            unit: "J Hz⁻¹",
            uncertainty: "exact",
            description: "Planck constant",
        },
        Identifier::ElementaryCharge => ConstantEntry {
            name: "elementary_charge",
            value: Value::Number(0x3c07_a4da_290c_1653u64),
            unit: "C",
            uncertainty: "exact",
            description: "elementary charge",
        },
        Identifier::BoltzmannConstant => ConstantEntry {
            name: "boltzmann_constant",
            value: Value::Number(0x3b30_b0e6_d55e_647cu64),
            unit: "J K⁻¹",
            uncertainty: "exact",
            description: "Boltzmann constant",
        },
        Identifier::AvogadroConstant => ConstantEntry {
            name: "avogadro_constant",
            value: Value::Number(0x44df_e185_ca57_c517u64),
            unit: "mol⁻¹",
            uncertainty: "exact",
            description: "Avogadro constant",
        },
        Identifier::GravitationalConstant => ConstantEntry {
            name: "gravitational_constant",
            value: Value::Number(0x3dd2_589e_ffed_8accu64),
            unit: "m³ kg⁻¹ s⁻²",
            uncertainty: "0.00015 x 10⁻¹¹",
            description: "Newtonian constant of gravitation",
        },
        Identifier::ElectronMass => ConstantEntry {
            name: "electron_mass",
            value: Value::Number(0x39b2_79dc_c922_bcd9u64),
            unit: "kg",
            uncertainty: "2.8e-40",
            description: "electron mass",
        },
        Identifier::FineStructureConstant => ConstantEntry {
            name: "fine_structure_constant",
            value: Value::Number(0x3f7d_e3d4_29c6_dc9du64),
            unit: "dimensionless",
            uncertainty: "0.000_000_001_1e-3",
            description: "fine-structure constant",
        },
        Identifier::RydbergConstant => ConstantEntry {
            name: "rydberg_constant",
            value: Value::Number(0x4164_ee44_722e_5797u64),
            unit: "m⁻¹",
            uncertainty: "0.000_000_012",
            description: "Rydberg constant",
        },
        Identifier::VacuumElectricPermittivity => ConstantEntry {
            name: "vacuum_electric_permittivity",
            value: Value::Number(0x3da3_7876_f159_1150u64),
            unit: "F m⁻¹",
            uncertainty: "0.000_000_001_4e-12",
            description: "vacuum electric permittivity",
        },
        Identifier::VacuumMagneticPermeability => ConstantEntry {
            name: "vacuum_magnetic_permeability",
            value: Value::Number(0x3eb5_1537_0f8e_0229u64),
            unit: "N A⁻²",
            uncertainty: "0.000_000_000_20e-6",
            description: "vacuum magnetic permeability",
        },
        Identifier::JosephsonConstant => ConstantEntry {
            name: "josephson_constant",
            value: Value::Number(0x42fb_7d46_5f7d_0800u64),
            unit: "Hz V⁻¹",
            uncertainty: "exact (definition based)",
            description: "Josephson constant (2e/h)",
        },
        Identifier::VonKlitzingConstant => ConstantEntry {
            name: "von_klitzing_constant",
            value: Value::Number(0x40d9_3533_ad42_c3cau64),
            unit: "Ω",
            uncertainty: "exact (definition based)",
            description: "von Klitzing constant (h/e²)",
        },
        Identifier::MagneticFluxQuantum => ConstantEntry {
            name: "magnetic_flux_quantum",
            value: Value::Number(0x3ce2_a019_a830_a613u64),
            unit: "Wb",
            uncertainty: "exact (definition based)",
            description: "magnetic flux quantum (h/2e)",
        },
        Identifier::ProtonMassKg => ConstantEntry {
            name: "proton_mass_kg",
            value: Value::Number(0x3a60_9099_b24a_c3fdu64),
            unit: "kg",
            uncertainty: "0.000_000_000_52e-27",
            description: "proton mass",
        },
        Identifier::NeutronMassU => ConstantEntry {
            name: "neutron_mass_u",
            value: Value::Number(0x3ff0_237d_d2b1_9ac5u64),
            unit: "u",
            uncertainty: "0.000_000_000_40",
            description: "neutron mass in atomic mass units",
        },
        Identifier::AtomicMassConstant => ConstantEntry {
            name: "atomic_mass_constant",
            value: Value::Number(0x3a60_71f7_7950_193fu64),
            unit: "kg",
            uncertainty: "0.000_000_000_52e-27",
            description: "atomic mass constant (m_u)",
        },
        Identifier::ProtonElectronMassRatio => ConstantEntry {
            name: "proton_electron_mass_ratio",
            value: Value::Number(0x409c_b09c_566c_2e8eu64),
            unit: "dimensionless",
            uncertainty: "0.000_000_032",
            description: "proton-electron mass ratio",
        },
        Identifier::BohrMagneton => ConstantEntry {
            name: "bohr_magneton",
            value: Value::Number(0x3b26_6c55_8da4_4f18u64),
            unit: "J T⁻¹",
            uncertainty: "0.000_000_002_9e-24",
            description: "Bohr magneton",
        },
        Identifier::NuclearMagneton => ConstantEntry {
            name: "nuclear_magneton",
            value: Value::Number(0x3a79_02a1_08ae_ecadu64),
            unit: "J T⁻¹",
            uncertainty: "0.000_000_001_6e-27",
            description: "nuclear magneton",
        },
        Identifier::ElectronGFactor => ConstantEntry {
            name: "electron_g_factor",
            value: Value::Number(0xc000_04bf_fbc3_0977u64),
            unit: "dimensionless",
            uncertainty: "0.000_000_000_000_36",
            description: "electron g-factor",
        },
        Identifier::MolarGasConstant => ConstantEntry {
            name: "molar_gas_constant",
            value: Value::Number(0x4020_a101_3e88_3fc4u64),
            unit: "J mol⁻¹ K⁻¹",
            uncertainty: "exact (defined by R = Na * k)",
            description: "molar gas constant",
        },
        Identifier::FaradayConstant => ConstantEntry {
            name: "faraday_constant",
            value: Value::Number(0x40f7_8e55_505d_0fa6u64),
            unit: "C mol⁻¹",
            uncertainty: "exact (defined by F = Na * e)",
            description: "Faraday constant",
        },
        Identifier::StefanBoltzmannConstant => ConstantEntry {
            name: "stefan_boltzmann_constant",
            value: Value::Number(0x3e6e_714d_a268_c0ccu64),
            unit: "W m⁻² K⁻⁴",
            uncertainty: "exact (calculated from k, h, c)",
            description: "Stefan-Boltzmann constant",
        },
        Identifier::ReducedPlanckConstant => ConstantEntry {
            name: "reduced_planck_constant",
            value: Value::Number(0x38e1_85a7_054e_4c91u64),
            unit: "J s",
            uncertainty: "uncertainty in source",
            description: "reduced Planck constant (h-bar)",
        },
        Identifier::InverseFineStructureConstant => ConstantEntry {
            name: "inverse_fine_structure_constant",
            value: Value::Number(0x4061_2126_e7be_fcbcu64),
            unit: "dimensionless",
            uncertainty: "0.000_000_021",
            description: "inverse fine-structure constant (1/α)",
        },
        Identifier::BohrRadius => ConstantEntry {
            name: "bohr_radius",
            value: Value::Number(0x3dcd_1781_d4a0_926bu64),
            unit: "m",
            uncertainty: "0.000_000_000_82e-11",
            description: "Bohr radius (a₀)",
        },
        Identifier::HartreeEnergy => ConstantEntry {
            name: "hartree_energy",
            value: Value::Number(0x3c54_1b13_fd8a_e92au64),
            unit: "J",
            uncertainty: "0.000_000_000_004_8e-18",
            description: "Hartree energy (Eh)",
        },
        Identifier::ElectronMassU => ConstantEntry {
            name: "electron_mass_u",
            value: Value::Number(0x3f41_f9d2_6261_0f98u64),
            unit: "u",
            uncertainty: "0.000_000_000_097e-4",
            description: "electron mass in atomic mass units",
        },
        Identifier::ProtonMassU => ConstantEntry {
            name: "proton_mass_u",
            value: Value::Number(0x3ff0_1dcd_ed9f_c9fcu64),
            unit: "u",
            uncertainty: "0.000_000_000_008_3",
            description: "proton mass in atomic mass units",
        },
        Identifier::DeuteronMassU => ConstantEntry {
            name: "deuteron_mass_u",
            value: Value::Number(0x4000_1bc1_c965_0ec8u64),
            unit: "u",
            uncertainty: "0.000_000_000_015",
            description: "deuteron mass in atomic mass units",
        },
        Identifier::AlphaParticleMassU => ConstantEntry {
            name: "alpha_particle_mass_u",
            value: Value::Number(0x4010_018a_d5f8_6765u64),
            unit: "u",
            uncertainty: "0.000_000_000_062",
            description: "alpha particle mass in atomic mass units",
        },
        Identifier::ClassicalElectronRadius => ConstantEntry {
            name: "classical_electron_radius",
            value: Value::Number(0x3ce9_61ba_5d72_bd04u64),
            unit: "m",
            uncertainty: "0.000_000_001_3e-15",
            description: "classical electron radius",
        },
        Identifier::ThomsonCrossSection => ConstantEntry {
            name: "thomson_cross_section",
            value: Value::Number(0x3a15_151d_9e10_9bf3u64),
            unit: "m²",
            uncertainty: "0.000_000_006_2e-29",
            description: "Thomson cross section",
        },
        Identifier::WienDisplacementConstant => ConstantEntry {
            name: "wien_displacement_constant",
            value: Value::Number(0x3f67_bd11_78e5_4d59u64),
            unit: "m K",
            uncertainty: "exact (calculated)",
            description: "Wien displacement law constant (b)",
        },
        Identifier::FirstRadiationConstant => ConstantEntry {
            name: "first_radiation_constant",
            value: Value::Number(0x3cba_f659_cc4c_8b96u64),
            unit: "W m²",
            uncertainty: "exact (calculated)",
            description: "first radiation constant (c₁)",
        },
        Identifier::SecondRadiationConstant => ConstantEntry {
            name: "second_radiation_constant",
            value: Value::Number(0x3f8d_7755_a2a2_f06eu64),
            unit: "m K",
            uncertainty: "exact (calculated)",
            description: "second radiation constant (c₂)",
        },
        Identifier::MuonGFactor => ConstantEntry {
            name: "muon_g_factor",
            value: Value::Number(0xc000_04c6_8e6e_941au64),
            unit: "dimensionless",
            uncertainty: "0.000_000_000_82",
            description: "muon g-factor",
        },
        Identifier::MuonMassU => ConstantEntry {
            name: "muon_mass_u",
            value: Value::Number(0x3fbd_09ad_964d_4a3bu64),
            unit: "u",
            uncertainty: "0.000_000_002_5",
            description: "muon mass in atomic mass units",
        },
        Identifier::MuonElectronMassRatio => ConstantEntry {
            name: "muon_electron_mass_ratio",
            value: Value::Number(0x4069_d895_c599_d2a4u64),
            unit: "dimensionless",
            uncertainty: "0.000_004_6",
            description: "muon-electron mass ratio",
        },
        Identifier::ProtonMagneticMoment => ConstantEntry {
            name: "proton_magnetic_moment",
            value: Value::Number(0x3a91_7664_314e_4372u64),
            unit: "J T⁻¹",
            uncertainty: "0.000_000_000_60e-26",
            description: "proton magnetic moment",
        },
        Identifier::NeutronMagneticMoment => ConstantEntry {
            name: "neutron_magnetic_moment",
            value: Value::Number(0xba87_ec40_67f2_15f3u64),
            unit: "J T⁻¹",
            uncertainty: "0.000_002_3e-27",
            description: "neutron magnetic moment",
        },
        Identifier::ProtonMagneticShieldingCorrection => ConstantEntry {
            name: "proton_magnetic_shielding_correction",
            value: Value::Number(0x3efa_eb24_0c0a_0aacu64),
            unit: "dimensionless",
            uncertainty: "0.000_41e-5",
            description: "proton magnetic shielding correction (H2O sphere, 25°C)",
        },
        Identifier::ShieldedProtonGyromagneticRatio => ConstantEntry {
            name: "shielded_proton_gyromagnetic_ratio",
            value: Value::Number(0x41af_e3eb_6ecc_cccdu64),
            unit: "s⁻¹ T⁻¹",
            uncertainty: "0.000_000_011e8",
            description: "shielded proton gyromagnetic ratio (H2O, sphere, 25°C)",
        },
        Identifier::NeutronProtonMassRatio => ConstantEntry {
            name: "neutron_proton_mass_ratio",
            value: Value::Number(0x3ff0_05a5_60a8_0390u64),
            unit: "dimensionless",
            uncertainty: "0.000_000_000_40",
            description: "neutron-proton mass ratio",
        },
        Identifier::ElectronMuonMassRatio => ConstantEntry {
            name: "electron_muon_mass_ratio",
            value: Value::Number(0x3f73_cf42_e7be_e81eu64),
            unit: "dimensionless",
            uncertainty: "0.000_000_11e-3",
            description: "electron-muon mass ratio",
        },
        Identifier::DeuteronProtonMassRatio => ConstantEntry {
            name: "deuteron_proton_mass_ratio",
            value: Value::Number(0x3fff_fbef_4a26_9b3cu64),
            unit: "dimensionless",
            uncertainty: "0.000_000_000_008_4",
            description: "deuteron-proton mass ratio",
        },
        Identifier::ElectronChargeToMassQuotient => ConstantEntry {
            name: "electron_charge_to_mass_quotient",
            value: Value::Number(0xc244_79b1_2ce3_0000u64),
            unit: "C kg⁻¹",
            uncertainty: "0.000_000_000_55e11",
            description: "electron charge to mass quotient",
        },
        Identifier::MolarVolumeIdealGas => ConstantEntry {
            name: "molar_volume_ideal_gas",
            value: Value::Number(0x3f96_f3b0_0897_6369u64),
            unit: "m³ mol⁻¹",
            uncertainty: "exact (at 273.15 K, 101.325 kPa)",
            description: "molar volume of ideal gas",
        },
        Identifier::MuonMagneticMoment => ConstantEntry {
            name: "muon_magnetic_moment",
            value: Value::Number(0xbaab_cb66_3c07_b216u64),
            unit: "J T⁻¹",
            uncertainty: "0.000_000_10e-26",
            description: "muon magnetic moment",
        },
    }
}

/// Returns every identifier of the registry, each once, build strings first.
pub fn identifiers() -> (all: Vec<Identifier>)
    ensures
        all@.len() == 55,
        all@.no_duplicates(),
        forall|id: Identifier| all@.contains(id),
{
    let all = vec![
        Identifier::BuildDate,
        Identifier::CommitSha,
        Identifier::RustcVersion,
        Identifier::CargoTargetTriple,
        Identifier::SystemInfo,
        Identifier::SpeedOfLight,
        Identifier::PlanckConstant,
        Identifier::ElementaryCharge,
        Identifier::BoltzmannConstant,
        Identifier::AvogadroConstant,
        Identifier::GravitationalConstant,
        Identifier::ElectronMass,
        Identifier::FineStructureConstant,
        Identifier::RydbergConstant,
        Identifier::VacuumElectricPermittivity,
        Identifier::VacuumMagneticPermeability,
        Identifier::JosephsonConstant,
        Identifier::VonKlitzingConstant,
        Identifier::MagneticFluxQuantum,
        Identifier::ProtonMassKg,
        Identifier::NeutronMassU,
        Identifier::AtomicMassConstant,
        Identifier::ProtonElectronMassRatio,
        Identifier::BohrMagneton,
        Identifier::NuclearMagneton,
        Identifier::ElectronGFactor,
        Identifier::MolarGasConstant,
        Identifier::FaradayConstant,
        Identifier::StefanBoltzmannConstant,
        Identifier::ReducedPlanckConstant,
        Identifier::InverseFineStructureConstant,
        Identifier::BohrRadius,
        Identifier::HartreeEnergy,
        Identifier::ElectronMassU,
        Identifier::ProtonMassU,
        Identifier::DeuteronMassU,
        Identifier::AlphaParticleMassU,
        Identifier::ClassicalElectronRadius,
        Identifier::ThomsonCrossSection,
        Identifier::WienDisplacementConstant,
        Identifier::FirstRadiationConstant,
        Identifier::SecondRadiationConstant,
        Identifier::MuonGFactor,
        Identifier::MuonMassU,
        Identifier::MuonElectronMassRatio,
        Identifier::ProtonMagneticMoment,
        Identifier::NeutronMagneticMoment,
        Identifier::ProtonMagneticShieldingCorrection,
        Identifier::ShieldedProtonGyromagneticRatio,
        Identifier::NeutronProtonMassRatio,
        Identifier::ElectronMuonMassRatio,
        Identifier::DeuteronProtonMassRatio,
        Identifier::ElectronChargeToMassQuotient,
        Identifier::MolarVolumeIdealGas,
        Identifier::MuonMagneticMoment,
    ];
    proof {
        assert forall|id: Identifier| all@.contains(id) by {
            match id {
                Identifier::BuildDate => { assert(all@[0] == id); },
                Identifier::CommitSha => { assert(all@[1] == id); },
                Identifier::RustcVersion => { assert(all@[2] == id); },
                Identifier::CargoTargetTriple => { assert(all@[3] == id); },
                Identifier::SystemInfo => { assert(all@[4] == id); },
                Identifier::SpeedOfLight => { assert(all@[5] == id); },
                Identifier::PlanckConstant => { assert(all@[6] == id); },
                Identifier::ElementaryCharge => { assert(all@[7] == id); },
                Identifier::BoltzmannConstant => { assert(all@[8] == id); },
                Identifier::AvogadroConstant => { assert(all@[9] == id); },
                Identifier::GravitationalConstant => { assert(all@[10] == id); },
                Identifier::ElectronMass => { assert(all@[11] == id); },
                Identifier::FineStructureConstant => { assert(all@[12] == id); },
                Identifier::RydbergConstant => { assert(all@[13] == id); },
                Identifier::VacuumElectricPermittivity => { assert(all@[14] == id); },
                Identifier::VacuumMagneticPermeability => { assert(all@[15] == id); },
                Identifier::JosephsonConstant => { assert(all@[16] == id); },
                Identifier::VonKlitzingConstant => { assert(all@[17] == id); },
                Identifier::MagneticFluxQuantum => { assert(all@[18] == id); },
                Identifier::ProtonMassKg => { assert(all@[19] == id); },
                Identifier::NeutronMassU => { assert(all@[20] == id); },
                Identifier::AtomicMassConstant => { assert(all@[21] == id); },
                Identifier::ProtonElectronMassRatio => { assert(all@[22] == id); },
                Identifier::BohrMagneton => { assert(all@[23] == id); },
                Identifier::NuclearMagneton => { assert(all@[24] == id); },
                Identifier::ElectronGFactor => { assert(all@[25] == id); },
                Identifier::MolarGasConstant => { assert(all@[26] == id); },
                Identifier::FaradayConstant => { assert(all@[27] == id); },
                Identifier::StefanBoltzmannConstant => { assert(all@[28] == id); },
                Identifier::ReducedPlanckConstant => { assert(all@[29] == id); },
                Identifier::InverseFineStructureConstant => { assert(all@[30] == id); },
                Identifier::BohrRadius => { assert(all@[31] == id); },
                Identifier::HartreeEnergy => { assert(all@[32] == id); },
                Identifier::ElectronMassU => { assert(all@[33] == id); },
                Identifier::ProtonMassU => { assert(all@[34] == id); },
                Identifier::DeuteronMassU => { assert(all@[35] == id); },
                Identifier::AlphaParticleMassU => { assert(all@[36] == id); },
                Identifier::ClassicalElectronRadius => { assert(all@[37] == id); },
                Identifier::ThomsonCrossSection => { assert(all@[38] == id); },
                Identifier::WienDisplacementConstant => { assert(all@[39] == id); },
                Identifier::FirstRadiationConstant => { assert(all@[40] == id); },
                Identifier::SecondRadiationConstant => { assert(all@[41] == id); },
                Identifier::MuonGFactor => { assert(all@[42] == id); },
                Identifier::MuonMassU => { assert(all@[43] == id); },
                Identifier::MuonElectronMassRatio => { assert(all@[44] == id); },
                Identifier::ProtonMagneticMoment => { assert(all@[45] == id); },
                Identifier::NeutronMagneticMoment => { assert(all@[46] == id); },
                Identifier::ProtonMagneticShieldingCorrection => { assert(all@[47] == id); },
                Identifier::ShieldedProtonGyromagneticRatio => { assert(all@[48] == id); },
                Identifier::NeutronProtonMassRatio => { assert(all@[49] == id); },
                Identifier::ElectronMuonMassRatio => { assert(all@[50] == id); },
                Identifier::DeuteronProtonMassRatio => { assert(all@[51] == id); },
                Identifier::ElectronChargeToMassQuotient => { assert(all@[52] == id); },
                Identifier::MolarVolumeIdealGas => { assert(all@[53] == id); },
                Identifier::MuonMagneticMoment => { assert(all@[54] == id); },
            }
        }
    }
    all
}

/// Returns the value held under `id`, as a copy of the caller's own.
pub fn get(id: Identifier) -> (value: Value)
    ensures
        value@ == native_value(id),
{
    entry(id).value
}

/// Every build string of the registry is vetted, so none holds a NUL.
pub proof fn lemma_build_strings_vetted()
    ensures
        is_vetted_text(BUILD_DATE@),
        is_vetted_text(COMMIT_SHA@),
        is_vetted_text(RUSTC_VERSION@),
        is_vetted_text(CARGO_TARGET_TRIPLE@),
        is_vetted_text(SYSTEM_INFO@),
{
    reveal_strlit("2023-10-24");
    reveal_strlit("a1b2c3d");
    reveal_strlit("1.70.0-nightly");
    reveal_strlit("x86_64-unknown-linux-gnu");
    reveal_strlit("Linux Arch Linux");
}

} // verus!
