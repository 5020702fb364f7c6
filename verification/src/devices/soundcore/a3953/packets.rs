pub mod set_equalizer_configuration;
pub mod state_update;
