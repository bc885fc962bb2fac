//! Pure logic of the built-in apps: pattern generators, note pools,
//! smoothing, scaling and sequencing helpers.

pub mod ad;
pub mod arp_de_levy;
pub mod clkturing;
pub mod cv2midi;
pub mod cv2midinote;
pub mod control2;
pub mod default;
pub mod euclid;
pub mod genseq;
pub mod keyboard;
pub mod lfo;
pub mod midi2cv;
pub mod mixer;
pub mod notefader;
pub mod offset_att;
pub mod probatrigger;
pub mod quantizer;
pub mod seq8;
pub mod vamp;
pub mod turing;
pub mod automator;
pub mod calibration;
pub mod calibration_unipolar;
pub mod follower;
pub mod slew;
