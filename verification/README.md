# cheesy_money_lib

The transaction-listing core of the Cheesy Money desktop application, written
in Verus and verified.

- `src/domain` — the `Transaction` entity, the `TransactionRepository` seam
  and the `list_transactions` use case, which hands the repository's answer
  through unchanged.
- `src/infrastructure` — the in-memory repository.
- `src/errors`, `src/state`, `src/commands` — the IPC error type, the
  application state and the body of the `get_transactions` command.
- `app/` — the Tauri shell: `run`, the async `#[tauri::command]` and the
  serde/thiserror forms of the types that cross the IPC boundary.
