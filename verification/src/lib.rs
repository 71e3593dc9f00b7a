//! Training-request logic of the linear-regression service: parameter and
//! data-set validation, the exponent bookkeeping that maps coefficients between
//! the caller's units and the rescaled space, and the decisions the `/train`
//! handler takes around its calls to the scaling service.

pub mod cors;
pub mod data_manipulate_client;
pub mod decimal;
pub mod json_converter;
pub mod model_shape;
pub mod text;
pub mod train_endpoint;
pub mod train_params;
pub mod unit_mapping;
