pub mod api_client;
