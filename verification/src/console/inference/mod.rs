pub mod response;
