//! Static tracepoints for DTrace: the rules by which providers and probes
//! become instrumentation sites, with machine-checked contracts.
//!
//! Two backends share the provider model and the argument marshaling. The
//! link-time backend reads the mangled symbol names out of the header that the
//! provider compiler writes. The section-record backend derives, at process
//! start, what is handed to the kernel's helper device.
pub mod error;
pub mod header;
pub mod linker;
pub mod marshal;
pub mod module_name;
pub mod no_linker;
pub mod provider;
pub mod section;
pub mod site;
pub mod table;
pub mod text;
