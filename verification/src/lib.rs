//! Binding generation for the Vulkan API from its XML registry.
//!
//! The work is done in four separate stages: the registry is crawled into a
//! typed model, the part of it that a target version and a list of extensions
//! select is computed, the selected identifiers are rewritten, and the result
//! is serialised as source text.

pub mod arena;
pub mod bitflags;
pub mod config;
pub mod crawl_model;
pub mod crawler;
pub mod eltype;
pub mod loader;
pub mod emit;
pub mod emit_model;
pub mod lowering;
pub mod model;
pub mod names;
pub mod prelude;
pub mod registry;
pub mod selection;
pub mod signature;
pub mod selection_model;
pub mod text;
pub mod version;
pub mod xml_events;

pub use arena::InternedRef;
pub use arena::StringArena;
pub use bitflags::WrappedFlags;
pub use config::GenConfig;
pub use config::VariantPaddingConfig;
pub use crawl_model::CrawlError;
pub use crawl_model::CrawlErrorKind;
pub use crawl_model::Frame;
pub use crawler::crawl;
pub use crawler::Crawler;
pub use eltype::VkElType;
pub use emit::emit;
pub use emit::generate;
pub use emit_model::Flavor;
pub use loader::CommandTable;
pub use model::VkCommand;
pub use model::VkExtn;
pub use model::VkFeature;
pub use model::VkInterface;
pub use model::VkMember;
pub use model::VkParam;
pub use model::VkReqRem;
pub use model::VkType;
pub use model::VkVariant;
pub use registry::VkRegistry;
pub use selection::final_variants_of;
pub use selection::select;
pub use selection::Selection;
pub use selection_model::ConstDef;
pub use selection_model::ExtraVariant;
pub use selection_model::Missing;
pub use selection_model::Referrer;
pub use selection_model::SelectError;
pub use version::VkVersion;
pub use xml_events::XmlAttribute;
pub use xml_events::XmlEvent;
