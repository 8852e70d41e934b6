//! # JetGraph client core
//!
//! The part of a JetGraph client that decides and computes, apart from the network.
//!
//! JetGraph is an in-memory graph engine that is spoken to over gRPC. Every call of the engine
//! comes here as a pair of functions: one builds the request from what the caller says, one
//! reads the result or the error from the engine's reply. Calls that take several rounds are
//! state machines that name the next request and take in its reply:
//! [`segment::walk::MembershipWalk`] and [`segment::sweep::CustomerSweep`].
//!
//! | Module | Holds |
//! |---|---|
//! | [`types`] | what callers pass and get |
//! | [`graph`] | nodes, edges, neighbors, transaction ingest |
//! | [`schema`] | node types, edge types, properties, memory usage |
//! | [`features`] | histograms, feature vectors, fraud flags, similarity |
//! | [`health`] | readiness |
//! | [`segment`] | signals and memberships for segment evaluation |
//! | [`client`] | connection settings, and what spans several services |
//! | [`float`] | floating-point numbers by their bits |
//! | [`text`] | optional text, lists of names, decimal numerals |
//!
//! What holds of the functions together, and of what each makes of its inputs, is stated in proof
//! functions named `law_..`; those on single calls are in the `laws` module of each service.

pub mod client;
pub mod error;
pub mod features;
pub mod float;
pub mod graph;
pub mod health;
pub mod schema;
pub mod segment;
pub mod text;
pub mod types;

pub use client::{Client, ConnectPlan};
pub use error::ClientError;
pub use features::{
    BuildSimilarityGraphResult, FeatureClient, FindSimilarNodesResult, SimilarNodeInfo,
};
pub use float::{Float32, Float64};
pub use graph::GraphClient;
pub use health::HealthClient;
pub use schema::schema_proto::ValueType;
pub use schema::{
    EdgeTypeInfo, GetSchemaResult, MemoryUsage, NodeTypeInfo, RemoveEdgeTypeResult, SchemaClient,
};
pub use segment::{segment_name_from_edge, EvalContextData, SegmentClient, SignalValue};
pub use types::{
    BoolPropertyWeight, CreateNodeResult, EdgeFilter, EdgeIngestOutcome, EdgeState,
    EdgeStateField, EdgeTypeWeight, HistogramField, IngestTransactionResult, NeighborEdge,
    NodeIngestOutcome, NodePropPredicate, NodePropertyFilter, NodeRef, PropertyEntry,
    PropertyValue, SegmentMember, SegmentMembership, TransactionEdge, TransactionNode,
    TransactionNodeRef, UpsertEdgeResult,
};
