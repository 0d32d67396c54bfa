//! Decision logic of a host that drives the ZCode agent core.
//!
//! The warm bridge (`zcode_warm` and its companions) talks to a long-lived
//! core over JSON lines; `zcode_process` and `zcode_tools` serve headless runs
//! of one task each. Nothing here performs I/O: a caller hands in what arrived
//! and performs what comes out.

pub mod bedrock_regions;
pub mod bridge_tool_activity;
pub mod goal_verifier;
pub mod ids;
pub mod json;
pub mod message_tool;
pub mod model_completion;
pub mod prompt_request;
pub mod protocol;
pub mod text;
pub mod zcode_process;
pub mod zcode_tools;
pub mod zcode_warm;
pub mod zcode_warm_events;
pub mod zcode_warm_goal;
pub mod zcode_warm_permissions;
pub mod zcode_warm_resume;
pub mod zcode_warm_state;
pub mod zcode_warm_store;
pub mod zcode_warm_v4_send;
pub mod zcode_warm_wire;
