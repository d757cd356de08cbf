pub mod template;
pub mod protocol;
pub mod server;
pub mod serve_skill;
pub mod sandbox;
pub mod framing;
pub mod call;
pub mod serve_run;
