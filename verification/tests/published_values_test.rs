use rssn_advanced::constant::{get, Identifier, Value};

fn number(id: Identifier) -> f64 {
    match get(id) {
        Value::Number(bits) => f64::from_bits(bits),
        Value::Text(_) => panic!("a physical constant is a number"),
    }
}

fn same(a: f64, b: f64) -> bool {
    a.to_bits() == b.to_bits()
}

#[test]
fn test_published_values_fundamental_and_measured() {
    assert!(same(number(Identifier::SpeedOfLight), 299_792_458.0));
    assert!(same(number(Identifier::PlanckConstant), 6.626_070_15e-34));
    assert!(same(number(Identifier::ElementaryCharge), 1.602_176_634e-19));
    assert!(same(number(Identifier::BoltzmannConstant), 1.380_649e-23));
    assert!(same(number(Identifier::AvogadroConstant), 6.022_140_76e23));
    assert!(same(number(Identifier::GravitationalConstant), 6.674_30e-11));
    assert!(same(number(Identifier::ElectronMass), 9.109_383_713_9e-31));
    assert!(same(number(Identifier::FineStructureConstant), 7.297_352_564_3e-3));
    assert!(same(number(Identifier::RydbergConstant), 10_973_731.568_157));
    assert!(same(number(Identifier::VacuumElectricPermittivity), 8.854_187_818_8e-12));
}

#[test]
fn test_published_values_electromagnetic_and_masses() {
    assert!(same(number(Identifier::VacuumMagneticPermeability), 1.256_637_061_27e-6));
    assert!(same(number(Identifier::JosephsonConstant), 483_597.848_4e9));
    assert!(same(number(Identifier::VonKlitzingConstant), 25_812.807_45));
    assert!(same(number(Identifier::MagneticFluxQuantum), 2.067_833_848e-15));
    assert!(same(number(Identifier::ProtonMassKg), 1.672_621_925_95e-27));
    assert!(same(number(Identifier::NeutronMassU), 1.008_664_916_06));
    assert!(same(number(Identifier::AtomicMassConstant), 1.660_539_068_92e-27));
    assert!(same(number(Identifier::ProtonElectronMassRatio), 1_836.152_673_426));
    assert!(same(number(Identifier::BohrMagneton), 9.274_010_065_7e-24));
    assert!(same(number(Identifier::NuclearMagneton), 5.050_783_739_3e-27));
}

#[test]
fn test_published_values_physico_chemical_and_quantum() {
    assert!(same(number(Identifier::ElectronGFactor), -2.002_319_304_360_92));
    assert!(same(number(Identifier::MolarGasConstant), 8.314_462_618));
    assert!(same(number(Identifier::FaradayConstant), 96_485.332_12));
    assert!(same(number(Identifier::StefanBoltzmannConstant), 5.670_374_419e-8));
    assert!(same(number(Identifier::ReducedPlanckConstant), 1.054_571_817e-34));
    assert!(same(number(Identifier::InverseFineStructureConstant), 137.035_999_177));
    assert!(same(number(Identifier::BohrRadius), 5.291_772_105_44e-11));
    assert!(same(number(Identifier::HartreeEnergy), 4.359_744_722_206_0e-18));
    assert!(same(number(Identifier::ElectronMassU), 5.485_799_090_441e-4));
    assert!(same(number(Identifier::ProtonMassU), 1.007_276_466_578_9));
}

#[test]
fn test_published_values_particle_and_radiation() {
    assert!(same(number(Identifier::DeuteronMassU), 2.013_553_212_544));
    assert!(same(number(Identifier::AlphaParticleMassU), 4.001_506_179_129));
    assert!(same(number(Identifier::ClassicalElectronRadius), 2.817_940_320_5e-15));
    assert!(same(number(Identifier::ThomsonCrossSection), 6.652_458_705_1e-29));
    assert!(same(number(Identifier::WienDisplacementConstant), 2.897_771_955e-3));
    assert!(same(number(Identifier::FirstRadiationConstant), 3.741_771_852e-16));
    assert!(same(number(Identifier::SecondRadiationConstant), 1.438_776_877e-2));
    assert!(same(number(Identifier::MuonGFactor), -2.002_331_841_23));
    assert!(same(number(Identifier::MuonMassU), 0.113_428_925_7));
    assert!(same(number(Identifier::MuonElectronMassRatio), 206.768_282_7));
}

#[test]
fn test_published_values_moments_and_ratios() {
    assert!(same(number(Identifier::ProtonMagneticMoment), 1.410_606_795_45e-26));
    assert!(same(number(Identifier::NeutronMagneticMoment), -9.662_365_3e-27));
    assert!(same(number(Identifier::ProtonMagneticShieldingCorrection), 2.567_15e-5));
    assert!(same(number(Identifier::ShieldedProtonGyromagneticRatio), 2.675_153_194e8));
    assert!(same(number(Identifier::NeutronProtonMassRatio), 1.001_378_419_46));
    assert!(same(number(Identifier::ElectronMuonMassRatio), 4.836_331_70e-3));
    assert!(same(number(Identifier::DeuteronProtonMassRatio), 1.999_007_501_269_9));
    assert!(same(number(Identifier::ElectronChargeToMassQuotient), -1.758_820_008_38e11));
    assert!(same(number(Identifier::MolarVolumeIdealGas), 22.413_969_54e-3));
    assert!(same(number(Identifier::MuonMagneticMoment), -4.490_448_30e-26));
}
