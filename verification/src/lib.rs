pub mod barcode;
pub mod escpos_model;
pub mod escpos_parser;
pub mod imaging;
pub mod parser_laws;
pub mod picture;
pub mod print_job;
pub mod printer_state;
pub mod qrcode;
pub mod renderer;
pub mod tcp_server;
pub mod test_receipt;
pub mod text;
