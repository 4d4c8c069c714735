//! Core of a minimal paste storage service: random short identifiers, the
//! identifier-to-content store with its size limit, the encrypted container
//! for the protected upload path, and the storage gauges computed from a
//! directory scan.

mod container;
mod id;
mod laws;
mod metrics;
mod mime;
mod pages;
mod store;

pub use container::open;
pub use container::open_of;
pub use container::seal;
pub use id::check_id;
pub use id::generate;
pub use id::is_id_char;
pub use id::valid_id;
pub use laws::lemma_deleted_is_absent;
pub use laws::lemma_gauges_after_fresh_uploads;
pub use laws::sum_lens;
pub use laws::lemma_never_written;
pub use laws::lemma_overwrite;
pub use laws::lemma_round_trip;
pub use mime::opt_str_view;
pub use mime::resolve_content_type;
pub use mime::resolved_type;
pub use mime::sniffed_mime_of;
pub use metrics::DirScan;
pub use metrics::GaugeValue;
pub use metrics::Metric;
pub use metrics::clamp_u64;
pub use metrics::lemma_gauges_reflect_store;
pub use metrics::scan_store;
pub use metrics::spec_stored_item_count;
pub use metrics::spec_total_stored_bytes;
pub use metrics::stored_item_count;
pub use metrics::sum_known;
pub use metrics::total_stored_bytes;
pub use pages::index;
pub use pages::spec_index_page;
pub use pages::spec_upload_page;
pub use pages::upload_ui;
pub use store::ContentStore;
pub use store::distinct_ids;
pub use store::lookup;
pub use store::path_for;
pub use store::sum_sizes;
pub use store::StoreError;
pub use store::StoredItem;
