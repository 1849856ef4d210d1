//! The patient records that the hub shows and hands to its emulators.

use vstd::prelude::*;

verus! {

/// The directory, below the user's data directory, that holds the hub's files.
pub const DATA_DIR_NAME: &'static str = "VirtualIOHub";

/// The file of patient records inside that directory.
pub const PATIENTS_FILE_NAME: &'static str = "patients.json";

/// The file of settings inside that directory.
pub const CONFIG_FILE_NAME: &'static str = "app_config.json";

/// One enrolled fingerprint.
#[derive(Debug, Clone, PartialEq, Eq)]
pub struct DigitalBiometric {
    pub finger: String,
    pub data: String,
}

/// One patient.
#[derive(Debug, Clone, PartialEq, Eq)]
pub struct Patient {
    pub id: u32,
    pub name: String,
    pub wallet: String,
    pub facial_biometric: String,
    pub digital_biometrics: Vec<DigitalBiometric>,
    pub imported: bool,
}

/// `DigitalBiometric` as the contracts see it.
pub struct DigitalBiometricView {
    pub finger: Seq<char>,
    pub data: Seq<char>,
}

/// `Patient` as the contracts see it.
pub struct PatientView {
    pub id: u32,
    pub name: Seq<char>,
    pub wallet: Seq<char>,
    pub facial_biometric: Seq<char>,
    pub digital_biometrics: Seq<DigitalBiometricView>,
    pub imported: bool,
}

impl DeepView for DigitalBiometric {
    type V = DigitalBiometricView;

    open spec fn deep_view(&self) -> DigitalBiometricView {
        DigitalBiometricView { finger: self.finger@, data: self.data@ }
    }
}

impl DeepView for Patient {
    type V = PatientView;

    open spec fn deep_view(&self) -> PatientView {
        PatientView {
            id: self.id,
            name: self.name@,
            wallet: self.wallet@,
            facial_biometric: self.facial_biometric@,
            digital_biometrics: self.digital_biometrics.deep_view(),
            imported: self.imported,
        }
    }
}

/// A patient of whom only number, name and wallet are known.
pub open spec fn blank_patient(id: u32, name: Seq<char>, wallet: Seq<char>) -> PatientView {
    PatientView {
        id,
        name,
        wallet,
        facial_biometric: Seq::empty(),
        digital_biometrics: Seq::empty(),
        imported: false,
    }
}

/// The records that a fresh installation starts with.
pub open spec fn default_patient_records() -> Seq<PatientView> {
    seq![
        blank_patient(1, "Ana Silva"@, "9876543210123456"@),
        blank_patient(2, "Bruno Costa"@, "1234567890654321"@),
    ]
}

fn blank(id: u32, name: &str, wallet: &str) -> (p: Patient)
    ensures
        p.deep_view() == blank_patient(id, name@, wallet@),
{
    let p = Patient {
        id,
        name: name.to_string(),
        wallet: wallet.to_string(),
        facial_biometric: String::new(),
        digital_biometrics: Vec::new(),
        imported: false,
    };
    assert(p.digital_biometrics.deep_view() =~= Seq::<DigitalBiometricView>::empty());
    p
}

/// The records that a fresh installation starts with.
pub fn default_patients() -> (patients: Vec<Patient>)
    ensures
        patients.deep_view() == default_patient_records(),
{
    let mut patients: Vec<Patient> = Vec::new();
    patients.push(blank(1, "Ana Silva", "9876543210123456"));
    patients.push(blank(2, "Bruno Costa", "1234567890654321"));
    patients
}

/// Settles what the records are once the host has looked for the file of
/// records: what the file holds, or, when there is no file yet, the records
/// of a fresh installation, which the host is then to write. The flag tells
/// whether it is to write them.
pub fn load_patients_from_disk(stored: Option<Vec<Patient>>) -> (r: (Vec<Patient>, bool))
    ensures
        match stored {
            Some(patients) => r.0 == patients && !r.1,
            None => r.0.deep_view() == default_patient_records() && r.1,
        },
{
    match stored {
        Some(patients) => (patients, false),
        None => (default_patients(), true),
    }
}

} // verus!
