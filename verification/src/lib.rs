pub mod ad_buffer;
pub mod advertisement;
pub mod att_error;
pub mod bluetooth_error;
pub mod byte_order;
pub mod descriptors;
pub mod gap_advertiser;
pub mod gatt_connection;
pub mod gatt_server_cb;
pub mod mtu;
pub mod prelude;
