pub mod azure;
pub mod battery;
pub mod buf;
pub mod c;
pub mod character;
pub mod conda;
pub mod custom_wasm;
pub mod docker_context;
pub mod dotnet;
pub mod fill;
pub mod gcloud;
pub mod git_commit;
pub mod hg_branch;
pub mod java;
pub mod jobs;
pub mod localip;
pub mod ocaml;
pub mod raku;
pub mod rlang;
pub mod rust;
pub mod scala;
pub mod shlvl;
pub mod singularity;
pub mod spack;
pub mod sudo;
pub mod vcsh;
pub mod cmd_duration;
