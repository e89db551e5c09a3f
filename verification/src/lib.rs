//! The logic of the Sentinella Hub agent for Kubernetes.
pub mod action;
pub mod clock;
pub mod cluster;
pub mod collector;
pub mod command;
pub mod config;
pub mod configuration;
pub mod dependency;
pub mod drain;
pub mod events;
pub mod failure;
pub mod health;
pub mod hub;
pub mod json;
pub mod json_value;
pub mod leader;
pub mod lifecycle;
pub mod maturity;
pub mod model;
pub mod network;
pub mod objects;
pub mod operator;
pub mod order;
pub mod pairs;
pub mod plugins;
pub mod pods;
pub mod policy;
pub mod preflight;
pub mod quantity;
pub mod resize;
pub mod resource_yaml;
pub mod rollout;
pub mod runtime;
pub mod scale;
pub mod security;
pub mod storage;
pub mod tech;
pub mod tetragon;
pub mod text;
pub mod update;
pub mod views;
pub mod workload;
