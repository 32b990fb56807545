//! Chromium engine sidecar: what the module decides, as functions with contracts.
//!
//! The module embeds browsers in a host application. The host sends requests and notices
//! ([`protocol`], [`command`]); they wait in the [`engine`] until the pump applies them ([`apply`],
//! [`create`], [`work`]). The native engine reports back ([`handlers`], [`devtools`], [`render`]),
//! and offscreen frames go to native surfaces ([`presenter`]) or out as a stream
//! ([`frame_stream`]). [`startup`] says what the native engine is told when it starts, and
//! [`harness`] runs the whole against a test page.
//!
//! What holds across them is stated apart: [`laws`] and [`ids`] for the engine as a whole,
//! [`request_laws`] for what is asked, [`op_laws`] for what operations come to, [`pump_laws`] for what
//! waits, [`frame_laws`] for frames, [`report_laws`] for what the host is told, and [`run_laws`] for
//! the harness and the start.
//!
//! Nothing here calls the native engine or the system: a function returns what is to be done
//! ([`ops`]), and is told the time and what the native engine reports.

pub mod apply;
pub mod command;
pub mod create;
pub mod devtools;
pub mod engine;
pub mod events;
pub mod frame_laws;
pub mod frame_stream;
pub mod handlers;
pub mod harness;
pub mod ids;
pub mod input;
pub mod json;
pub mod laws;
pub mod op_laws;
pub mod ops;
pub mod presenter;
pub mod protocol;
pub mod pump_laws;
pub mod render;
pub mod report_laws;
pub mod request_laws;
pub mod run_laws;
pub mod startup;
pub mod text;
pub mod work;
