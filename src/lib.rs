//! Supervision of a single external bridge process: the launch arguments it
//! is given, the start / stop / status state machine that guards it, and the
//! handling of the output it produces.

mod decimal;
mod drain;
mod launch;
mod lifecycle;
mod supervisor;

pub use decimal::{decimal, digit_char, push_decimal};
pub use drain::{drain_step, DrainStep, OutputEvent, STDERR_TAG, STDOUT_TAG};
pub use launch::{
    host_or_default, launch_args, port_or, views, LaunchConfig, DEFAULT_TCP_HOST, DEFAULT_TCP_PORT,
    DEFAULT_WS_PORT,
};
pub use lifecycle::{
    apply, claims_won, handles_stored, lemma_concurrent_starts_single_child,
    lemma_one_of_simultaneous_starts_wins, lemma_second_start_refused, lemma_started_reports_pid,
    lemma_stop_when_idle_refused, lemma_stopped_reports_nothing, settles_when_claimed,
    spawns_failed, StartEvent,
};
pub use supervisor::{
    after_claim, after_spawn, after_stop, claim_refused, kill_outcome, reported_pid, reports_running,
    stop_refused, Mode, Supervisor, SupervisorError,
};
