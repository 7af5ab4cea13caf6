//! WS63 radio backend: the decisions, state machines and diagnostics of the
//! Wi-Fi and BLE host side, separate from the vendor calls that they drive.

pub mod ble;
pub mod ble_compat;
pub mod ble_init_diag;
pub mod ble_sc;
pub mod blocking_diagnostics;
pub mod composition;
pub mod data_path_diag;
pub mod diagnostics;
pub mod error;
pub mod hisi_rf_backend;
pub mod incremental_wait;
pub mod incremental_worker;
pub mod netif_l2;
pub mod radio;
pub mod render;
