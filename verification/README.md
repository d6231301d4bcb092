# club_sem_rust

Gestión de socios y cuotas del club SemRust, verificada con Verus.

- `src/`: la biblioteca verificada. Categorías y deportes, cuotas con bonificación,
  socios (cuya única cuota pendiente es siempre la última), el estado del club con su
  política de autorización (sin bloqueo opera cualquiera; con bloqueo, las cuentas
  habilitadas y el dueño), y los reportes: socios morosos, socios al día por actividad y
  recaudación mensual.
- `app/`: los contratos sobre el entorno de ink!. Guardan el estado en forma codificable,
  leen quién llama y la hora del bloque, comprueban las condiciones de cada operación con
  el aviso correspondiente y delegan en la biblioteca.
- `tests/`: pruebas de la biblioteca.
