# AqNoor virtual thermal printer

An ESC/POS thermal receipt printer emulator: raw printer bytes go in, a typed
print job and an HTML receipt preview come out. The library is written in
Verus and its behaviour is stated in contracts and proved.

## Layout

- `src/printer_state.rs`: paper presets, text style and the printer's state.
- `src/print_job.rs`: print jobs and their elements, hex dumps.
- `src/escpos_model.rs`: the printer as a state machine over bytes, as spec
  functions; `src/escpos_parser.rs`: the executable parser, proved to follow
  that machine byte by byte.
- `src/parser_laws.rs`: what holds of every run of the machine.
- `src/barcode.rs`, `src/qrcode.rs`, `src/imaging.rs`: barcode and QR images
  (through `rxing`, `qrcode`, `image` and `base64`).
- `src/renderer.rs`: the HTML receipt; `src/picture.rs`: the text-only PNG
  picture saved in its place.
- `src/tcp_server.rs`: the server's state and job processing.
- `src/test_receipt.rs`: sample receipts as raw bytes.
- `src/text.rs`: decimal and hexadecimal text, lines, trimming, UTF-8.
- `app/`: the Tauri desktop application and the TCP listener around the
  library.
- `tests/`: tests run against the compiled library.
