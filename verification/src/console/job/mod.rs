pub mod request;
