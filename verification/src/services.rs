pub mod echo_service;
pub mod ws_socket_service;
