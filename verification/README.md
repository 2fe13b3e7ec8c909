# war_and_trade

Library of the War And Trade strategy game.

- `src/game`: the in-game calendar (`GameDate`, years of 10 months of 40
  days) with its laws, game speeds and the data of a game.
- `src/game_manager.rs`: the server's decisions. The server loop hands each
  command to `GameManager::process_command` and carries out the
  `ServerAction` it returns; `simulate` decides when a day is due.
- `src/protocol`: commands, telemetries, the GUI's picture of the server
  (`ServerState::apply_telemetry`) and the decoding of the datagrams sent by
  the GUI (`decode_packet`, `CommandBatch`).
- `src/ui`: menu navigation, the speed buttons and the text of the displayed
  date.
- `app/`: the program around the library: threads, channels, files, the
  socket, the egui windows, and the civilisation model, whose needs and
  population are computed in floating point.
