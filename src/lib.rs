//! Orchestration core for pairwise network experiments: endpoint naming,
//! lock ordering between concurrently running pairs, the on-disk completion
//! layout, provisioning decisions and the per-pair experiment pipeline.

pub mod lock_order;
pub mod topology;
pub mod layout;
pub mod template;
pub mod stages;
pub mod pipeline;
pub mod summary;
pub mod provision;
pub mod bootstrap;
pub mod remote;

pub use bootstrap::{get_tools, install_basic_packages};
pub use remote::{get_home, get_iface_name, iface_name, pkill};
pub use stages::{bundler_exp_iperf, nobundler_exp_control, nobundler_exp_iperf};
pub use topology::Node;
